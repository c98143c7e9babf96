//! The rule driver: holds the two path sets, checks one expression, and
//! walks a whole tree.
//!
//! The rule carries no other state: each expression is checked independently
//! and statelessly, so the findings of a tree are a pure function of the tree
//! and the two path sets.

use vstd::prelude::*;

use crate::ast::{Expr, ExprKind, FieldBinding, Finding};
use crate::config::{parse_user_paths, user_paths_spec};
use crate::context_call::{context_fields_spec, is_context_call_spec, match_context_call};
use crate::forbidden::{find_forbidden_fields, forbidden_in_fields};
use crate::path::PathSet;
use crate::table::{
    builtin_allowed_paths, builtin_context_paths, spec_allowed_paths, spec_context_paths,
};

verus! {

/// One rule instance: the fixed context-attachment forms and the allow-list,
/// the union of the built-in allowed calls and the user-configured entries.
/// Both sets are immutable for the whole traversal.
pub struct Rule {
    pub context_like: PathSet,
    pub allowed_calls: PathSet,
}

impl Rule {
    /// Builds a rule instance from the user-configured allow-list entries,
    /// as the configuration loader supplies them.  Absent configuration is
    /// an empty sequence of entries.
    pub fn new(user_allow: &Vec<String>) -> (r: Rule)
        ensures
            r.context_like@ == spec_context_paths(),
            r.allowed_calls@ == spec_allowed_paths() + user_paths_spec(
                Seq::new(user_allow@.len(), |j: int| user_allow@[j]@),
            ),
    {
        let context_like = builtin_context_paths();
        let mut allowed = builtin_allowed_paths();
        let mut user = parse_user_paths(user_allow);
        allowed.paths.append(&mut user);
        let r = Rule { context_like, allowed_calls: allowed };
        proof {
            assert(r.allowed_calls@ =~= spec_allowed_paths() + user_paths_spec(
                Seq::new(user_allow@.len(), |j: int| user_allow@[j]@),
            ));
        }
        r
    }
}

/// The findings the rule produces for the single expression `e`: when `e` is
/// a context-attachment call, the forbidden calls within its struct-literal
/// argument's fields, in order; otherwise nothing.
pub open spec fn check_expr_spec(
    e: Expr,
    context_like: Seq<Seq<Seq<char>>>,
    allowed: Seq<Seq<Seq<char>>>,
) -> Seq<Finding> {
    if is_context_call_spec(e, context_like) {
        forbidden_in_fields(context_fields_spec(e), allowed, 0)
    } else {
        Seq::empty()
    }
}

/// Checks the single expression `e`: matches it against the
/// context-attachment forms and, on a match, collects the forbidden calls
/// within each field of the struct-literal argument.  One diagnostic is owed
/// per finding; emitting it is the diagnostic sink's part.
pub fn check_expr(rule: &Rule, e: &Expr) -> (r: Vec<Finding>)
    ensures
        r@ == check_expr_spec(*e, rule.context_like@, rule.allowed_calls@),
{
    match match_context_call(e, &rule.context_like) {
        Some(fields) => find_forbidden_fields(fields, &rule.allowed_calls),
        None => Vec::new(),
    }
}

/// The findings of a full depth-first walk of `e`: the findings of `e`
/// itself, then those of each child expression in syntactic order.  Every
/// expression of the tree is checked independently, so a context-attachment
/// call nested inside another's field is found on its own.
pub open spec fn analyze_spec(
    e: Expr,
    context_like: Seq<Seq<Seq<char>>>,
    allowed: Seq<Seq<Seq<char>>>,
) -> Seq<Finding>
    decreases e, 0int,
{
    check_expr_spec(e, context_like, allowed) + (match e.kind {
        ExprKind::Call { target, callee, args } => analyze_spec(*callee, context_like, allowed)
            + analyze_exprs_spec(args@, context_like, allowed, 0),
        ExprKind::MethodCall { target, receiver, args } => analyze_spec(
            *receiver,
            context_like,
            allowed,
        ) + analyze_exprs_spec(args@, context_like, allowed, 0),
        ExprKind::PathExpr { res } => Seq::empty(),
        ExprKind::StructLit { fields, base } => analyze_fields_spec(
            fields@,
            context_like,
            allowed,
            0,
        ) + (match base {
            Some(b) => analyze_spec(*b, context_like, allowed),
            None => Seq::empty(),
        }),
        ExprKind::Closure { body } => analyze_spec(*body, context_like, allowed),
        ExprKind::Block { exprs } => analyze_exprs_spec(exprs@, context_like, allowed, 0),
        ExprKind::If { cond, then_branch, else_branch } => analyze_spec(
            *cond,
            context_like,
            allowed,
        ) + analyze_spec(*then_branch, context_like, allowed) + (match else_branch {
            Some(b) => analyze_spec(*b, context_like, allowed),
            None => Seq::empty(),
        }),
        ExprKind::Binary { lhs, rhs } => analyze_spec(*lhs, context_like, allowed) + analyze_spec(
            *rhs,
            context_like,
            allowed,
        ),
        ExprKind::Unary { operand } => analyze_spec(*operand, context_like, allowed),
        ExprKind::FieldAccess { base } => analyze_spec(*base, context_like, allowed),
        ExprKind::Index { base, index } => analyze_spec(*base, context_like, allowed)
            + analyze_spec(*index, context_like, allowed),
        ExprKind::Lit => Seq::empty(),
    })
}

/// The findings of the walk over the expressions of `s` from index `i` on.
pub open spec fn analyze_exprs_spec(
    s: Seq<Expr>,
    context_like: Seq<Seq<Seq<char>>>,
    allowed: Seq<Seq<Seq<char>>>,
    i: int,
) -> Seq<Finding>
    decreases s, s.len() - i,
{
    if i < 0 || i >= s.len() {
        Seq::empty()
    } else {
        analyze_spec(s[i], context_like, allowed) + analyze_exprs_spec(
            s,
            context_like,
            allowed,
            i + 1,
        )
    }
}

/// The findings of the walk over the field value expressions of `fields`
/// from index `i` on.
pub open spec fn analyze_fields_spec(
    fields: Seq<FieldBinding>,
    context_like: Seq<Seq<Seq<char>>>,
    allowed: Seq<Seq<Seq<char>>>,
    i: int,
) -> Seq<Finding>
    decreases fields, fields.len() - i,
{
    if i < 0 || i >= fields.len() {
        Seq::empty()
    } else {
        analyze_spec(fields[i].expr, context_like, allowed) + analyze_fields_spec(
            fields,
            context_like,
            allowed,
            i + 1,
        )
    }
}

/// Walks the whole tree rooted at `e` depth-first and checks every
/// expression, concatenating the findings in visit order.  The traversal
/// order is deterministic, so repeated runs over the same unchanged tree
/// produce the identical ordered sequence of findings.
pub fn analyze(rule: &Rule, e: &Expr) -> (r: Vec<Finding>)
    ensures
        r@ == analyze_spec(*e, rule.context_like@, rule.allowed_calls@),
    decreases *e, 0int,
{
    let mut r = check_expr(rule, e);
    match &e.kind {
        ExprKind::Call { target, callee, args } => {
            let mut from_callee = analyze(rule, callee);
            r.append(&mut from_callee);
            let mut from_args = analyze_list(rule, args);
            r.append(&mut from_args);
            assert(r@ =~= analyze_spec(*e, rule.context_like@, rule.allowed_calls@));
        },
        ExprKind::MethodCall { target, receiver, args } => {
            let mut from_receiver = analyze(rule, receiver);
            r.append(&mut from_receiver);
            let mut from_args = analyze_list(rule, args);
            r.append(&mut from_args);
            assert(r@ =~= analyze_spec(*e, rule.context_like@, rule.allowed_calls@));
        },
        ExprKind::PathExpr { res } => {
            assert(r@ =~= analyze_spec(*e, rule.context_like@, rule.allowed_calls@));
        },
        ExprKind::StructLit { fields, base } => {
            let mut from_fields = analyze_fields(rule, fields);
            r.append(&mut from_fields);
            if let Some(b) = base {
                let mut from_base = analyze(rule, b);
                r.append(&mut from_base);
            }
            assert(r@ =~= analyze_spec(*e, rule.context_like@, rule.allowed_calls@));
        },
        ExprKind::Closure { body } => {
            let mut from_body = analyze(rule, body);
            r.append(&mut from_body);
            assert(r@ =~= analyze_spec(*e, rule.context_like@, rule.allowed_calls@));
        },
        ExprKind::Block { exprs } => {
            let mut from_exprs = analyze_list(rule, exprs);
            r.append(&mut from_exprs);
            assert(r@ =~= analyze_spec(*e, rule.context_like@, rule.allowed_calls@));
        },
        ExprKind::If { cond, then_branch, else_branch } => {
            let mut from_cond = analyze(rule, cond);
            r.append(&mut from_cond);
            let mut from_then = analyze(rule, then_branch);
            r.append(&mut from_then);
            if let Some(b) = else_branch {
                let mut from_else = analyze(rule, b);
                r.append(&mut from_else);
            }
            assert(r@ =~= analyze_spec(*e, rule.context_like@, rule.allowed_calls@));
        },
        ExprKind::Binary { lhs, rhs } => {
            let mut from_lhs = analyze(rule, lhs);
            r.append(&mut from_lhs);
            let mut from_rhs = analyze(rule, rhs);
            r.append(&mut from_rhs);
            assert(r@ =~= analyze_spec(*e, rule.context_like@, rule.allowed_calls@));
        },
        ExprKind::Unary { operand } => {
            let mut from_operand = analyze(rule, operand);
            r.append(&mut from_operand);
            assert(r@ =~= analyze_spec(*e, rule.context_like@, rule.allowed_calls@));
        },
        ExprKind::FieldAccess { base } => {
            let mut from_base = analyze(rule, base);
            r.append(&mut from_base);
            assert(r@ =~= analyze_spec(*e, rule.context_like@, rule.allowed_calls@));
        },
        ExprKind::Index { base, index } => {
            let mut from_base = analyze(rule, base);
            r.append(&mut from_base);
            let mut from_index = analyze(rule, index);
            r.append(&mut from_index);
            assert(r@ =~= analyze_spec(*e, rule.context_like@, rule.allowed_calls@));
        },
        ExprKind::Lit => {
            assert(r@ =~= analyze_spec(*e, rule.context_like@, rule.allowed_calls@));
        },
    }
    r
}

/// Walks each expression of `s`, in order.
fn analyze_list(rule: &Rule, s: &Vec<Expr>) -> (r: Vec<Finding>)
    ensures
        r@ == analyze_exprs_spec(s@, rule.context_like@, rule.allowed_calls@, 0),
    decreases *s, 1int,
{
    let n = s.len();
    let mut r: Vec<Finding> = Vec::new();
    let mut i: usize = 0;
    while i < n
        invariant
            n == s@.len(),
            i <= n,
            r@ + analyze_exprs_spec(s@, rule.context_like@, rule.allowed_calls@, i as int)
                == analyze_exprs_spec(s@, rule.context_like@, rule.allowed_calls@, 0),
        decreases n - i,
    {
        let ghost prev = r@;
        let mut found = analyze(rule, &s[i]);
        r.append(&mut found);
        proof {
            assert(r@ + analyze_exprs_spec(s@, rule.context_like@, rule.allowed_calls@, i + 1)
                =~= prev + analyze_exprs_spec(
                s@,
                rule.context_like@,
                rule.allowed_calls@,
                i as int,
            ));
        }
        i = i + 1;
    }
    proof {
        assert(r@ + analyze_exprs_spec(s@, rule.context_like@, rule.allowed_calls@, n as int)
            =~= r@);
    }
    r
}

/// Walks each field value expression of `fields`, in order.
fn analyze_fields(rule: &Rule, fields: &Vec<FieldBinding>) -> (r: Vec<Finding>)
    ensures
        r@ == analyze_fields_spec(fields@, rule.context_like@, rule.allowed_calls@, 0),
    decreases *fields, 1int,
{
    let n = fields.len();
    let mut r: Vec<Finding> = Vec::new();
    let mut i: usize = 0;
    while i < n
        invariant
            n == fields@.len(),
            i <= n,
            r@ + analyze_fields_spec(fields@, rule.context_like@, rule.allowed_calls@, i as int)
                == analyze_fields_spec(fields@, rule.context_like@, rule.allowed_calls@, 0),
        decreases n - i,
    {
        let ghost prev = r@;
        let mut found = analyze(rule, &fields[i].expr);
        r.append(&mut found);
        proof {
            assert(r@ + analyze_fields_spec(
                fields@,
                rule.context_like@,
                rule.allowed_calls@,
                i + 1,
            ) =~= prev + analyze_fields_spec(
                fields@,
                rule.context_like@,
                rule.allowed_calls@,
                i as int,
            ));
        }
        i = i + 1;
    }
    proof {
        assert(r@ + analyze_fields_spec(fields@, rule.context_like@, rule.allowed_calls@, n as int)
            =~= r@);
    }
    r
}

} // verus!
