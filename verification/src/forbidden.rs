//! The forbidden-call visitor: walks a field expression's subtree and
//! collects every call that does not resolve to an allowed path.

use vstd::prelude::*;

use crate::ast::{CallKind, Expr, ExprKind, FieldBinding, Finding};
use crate::path::PathSet;
use crate::resolve::{is_any_call_path, resolves_to_one_of};

verus! {

/// The findings the visitor collects from `e`, in visit order: at each call
/// expression that does not resolve to a member of `allowed` — including
/// calls the oracle cannot resolve, which are conservatively treated as
/// forbidden — one finding with the call's kind and span; the call itself is
/// reported at most once, and the walk then descends into the call's
/// arguments (and a method call's receiver), so calls strictly inside them
/// are reported independently.  Every other shape is descended through,
/// including the bodies of inline closures.
pub open spec fn forbidden_in_expr(e: Expr, allowed: Seq<Seq<Seq<char>>>) -> Seq<Finding>
    decreases e, 0int,
{
    match e.kind {
        ExprKind::Call { target, callee, args } => {
            let own: Seq<Finding> = if resolves_to_one_of(e, allowed) {
                Seq::empty()
            } else {
                seq![Finding { kind: CallKind::Function, span: e.span }]
            };
            own + forbidden_in_exprs(args@, allowed, 0)
        },
        ExprKind::MethodCall { target, receiver, args } => {
            let own: Seq<Finding> = if resolves_to_one_of(e, allowed) {
                Seq::empty()
            } else {
                seq![Finding { kind: CallKind::Method, span: e.span }]
            };
            own + forbidden_in_expr(*receiver, allowed) + forbidden_in_exprs(args@, allowed, 0)
        },
        ExprKind::PathExpr { res } => Seq::empty(),
        ExprKind::StructLit { fields, base } => forbidden_in_fields(fields@, allowed, 0) + (match base {
            Some(b) => forbidden_in_expr(*b, allowed),
            None => Seq::empty(),
        }),
        ExprKind::Closure { body } => forbidden_in_expr(*body, allowed),
        ExprKind::Block { exprs } => forbidden_in_exprs(exprs@, allowed, 0),
        ExprKind::If { cond, then_branch, else_branch } => forbidden_in_expr(*cond, allowed)
            + forbidden_in_expr(*then_branch, allowed) + (match else_branch {
            Some(b) => forbidden_in_expr(*b, allowed),
            None => Seq::empty(),
        }),
        ExprKind::Binary { lhs, rhs } => forbidden_in_expr(*lhs, allowed) + forbidden_in_expr(
            *rhs,
            allowed,
        ),
        ExprKind::Unary { operand } => forbidden_in_expr(*operand, allowed),
        ExprKind::FieldAccess { base } => forbidden_in_expr(*base, allowed),
        ExprKind::Index { base, index } => forbidden_in_expr(*base, allowed) + forbidden_in_expr(
            *index,
            allowed,
        ),
        ExprKind::Lit => Seq::empty(),
    }
}

/// The findings collected from the expressions of `s` from index `i` on,
/// concatenated in order.
pub open spec fn forbidden_in_exprs(s: Seq<Expr>, allowed: Seq<Seq<Seq<char>>>, i: int) -> Seq<
    Finding,
>
    decreases s, s.len() - i,
{
    if i < 0 || i >= s.len() {
        Seq::empty()
    } else {
        forbidden_in_expr(s[i], allowed) + forbidden_in_exprs(s, allowed, i + 1)
    }
}

/// The findings collected from the field value expressions of `fields` from
/// index `i` on, concatenated in order.
pub open spec fn forbidden_in_fields(
    fields: Seq<FieldBinding>,
    allowed: Seq<Seq<Seq<char>>>,
    i: int,
) -> Seq<Finding>
    decreases fields, fields.len() - i,
{
    if i < 0 || i >= fields.len() {
        Seq::empty()
    } else {
        forbidden_in_expr(fields[i].expr, allowed) + forbidden_in_fields(fields, allowed, i + 1)
    }
}

/// Walks `e`'s subtree and collects every call whose resolved path is not a
/// member of `allowed`, in visit order.  Resolution failure is not an error:
/// an unresolvable call is conservatively flagged, since the rule cannot
/// prove it benign.
pub fn find_forbidden(e: &Expr, allowed: &PathSet) -> (r: Vec<Finding>)
    ensures
        r@ == forbidden_in_expr(*e, allowed@),
    decreases *e, 0int,
{
    let mut r: Vec<Finding> = Vec::new();
    match &e.kind {
        ExprKind::Call { target, callee, args } => {
            if !is_any_call_path(e, allowed) {
                r.push(Finding { kind: CallKind::Function, span: e.span });
            }
            let mut rest = find_forbidden_list(args, allowed);
            r.append(&mut rest);
            assert(r@ =~= forbidden_in_expr(*e, allowed@));
        },
        ExprKind::MethodCall { target, receiver, args } => {
            if !is_any_call_path(e, allowed) {
                r.push(Finding { kind: CallKind::Method, span: e.span });
            }
            let mut from_receiver = find_forbidden(receiver, allowed);
            r.append(&mut from_receiver);
            let mut from_args = find_forbidden_list(args, allowed);
            r.append(&mut from_args);
            assert(r@ =~= forbidden_in_expr(*e, allowed@));
        },
        ExprKind::PathExpr { res } => {},
        ExprKind::StructLit { fields, base } => {
            let mut from_fields = find_forbidden_fields(fields, allowed);
            r.append(&mut from_fields);
            if let Some(b) = base {
                let mut from_base = find_forbidden(b, allowed);
                r.append(&mut from_base);
            }
            assert(r@ =~= forbidden_in_expr(*e, allowed@));
        },
        ExprKind::Closure { body } => {
            let mut from_body = find_forbidden(body, allowed);
            r.append(&mut from_body);
            assert(r@ =~= forbidden_in_expr(*e, allowed@));
        },
        ExprKind::Block { exprs } => {
            let mut from_exprs = find_forbidden_list(exprs, allowed);
            r.append(&mut from_exprs);
            assert(r@ =~= forbidden_in_expr(*e, allowed@));
        },
        ExprKind::If { cond, then_branch, else_branch } => {
            let mut from_cond = find_forbidden(cond, allowed);
            r.append(&mut from_cond);
            let mut from_then = find_forbidden(then_branch, allowed);
            r.append(&mut from_then);
            if let Some(b) = else_branch {
                let mut from_else = find_forbidden(b, allowed);
                r.append(&mut from_else);
            }
            assert(r@ =~= forbidden_in_expr(*e, allowed@));
        },
        ExprKind::Binary { lhs, rhs } => {
            let mut from_lhs = find_forbidden(lhs, allowed);
            r.append(&mut from_lhs);
            let mut from_rhs = find_forbidden(rhs, allowed);
            r.append(&mut from_rhs);
            assert(r@ =~= forbidden_in_expr(*e, allowed@));
        },
        ExprKind::Unary { operand } => {
            let mut from_operand = find_forbidden(operand, allowed);
            r.append(&mut from_operand);
            assert(r@ =~= forbidden_in_expr(*e, allowed@));
        },
        ExprKind::FieldAccess { base } => {
            let mut from_base = find_forbidden(base, allowed);
            r.append(&mut from_base);
            assert(r@ =~= forbidden_in_expr(*e, allowed@));
        },
        ExprKind::Index { base, index } => {
            let mut from_base = find_forbidden(base, allowed);
            r.append(&mut from_base);
            let mut from_index = find_forbidden(index, allowed);
            r.append(&mut from_index);
            assert(r@ =~= forbidden_in_expr(*e, allowed@));
        },
        ExprKind::Lit => {},
    }
    r
}

/// Collects the forbidden calls of each expression of `s`, in order.
fn find_forbidden_list(s: &Vec<Expr>, allowed: &PathSet) -> (r: Vec<Finding>)
    ensures
        r@ == forbidden_in_exprs(s@, allowed@, 0),
    decreases *s, 1int,
{
    let n = s.len();
    let mut r: Vec<Finding> = Vec::new();
    let mut i: usize = 0;
    while i < n
        invariant
            n == s@.len(),
            i <= n,
            r@ + forbidden_in_exprs(s@, allowed@, i as int) == forbidden_in_exprs(s@, allowed@, 0),
        decreases n - i,
    {
        let ghost prev = r@;
        let mut found = find_forbidden(&s[i], allowed);
        r.append(&mut found);
        proof {
            assert(r@ + forbidden_in_exprs(s@, allowed@, i + 1) =~= prev + forbidden_in_exprs(
                s@,
                allowed@,
                i as int,
            ));
        }
        i = i + 1;
    }
    proof {
        assert(r@ + forbidden_in_exprs(s@, allowed@, n as int) =~= r@);
    }
    r
}

/// Collects the forbidden calls of each field value expression of `fields`,
/// in order.
pub(crate) fn find_forbidden_fields(fields: &Vec<FieldBinding>, allowed: &PathSet) -> (r: Vec<
    Finding,
>)
    ensures
        r@ == forbidden_in_fields(fields@, allowed@, 0),
    decreases *fields, 1int,
{
    let n = fields.len();
    let mut r: Vec<Finding> = Vec::new();
    let mut i: usize = 0;
    while i < n
        invariant
            n == fields@.len(),
            i <= n,
            r@ + forbidden_in_fields(fields@, allowed@, i as int) == forbidden_in_fields(
                fields@,
                allowed@,
                0,
            ),
        decreases n - i,
    {
        let ghost prev = r@;
        let mut found = find_forbidden(&fields[i].expr, allowed);
        r.append(&mut found);
        proof {
            assert(r@ + forbidden_in_fields(fields@, allowed@, i + 1) =~= prev
                + forbidden_in_fields(fields@, allowed@, i as int));
        }
        i = i + 1;
    }
    proof {
        assert(r@ + forbidden_in_fields(fields@, allowed@, n as int) =~= r@);
    }
    r
}

} // verus!
