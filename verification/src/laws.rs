//! Laws of the rule, stated and proved over the specification functions the
//! executable functions' contracts use.

use vstd::prelude::*;

use crate::ast::{CallKind, Expr, ExprKind, FieldBinding, Finding, Span};
use crate::context_call::{context_fields_spec, is_context_call_spec, single_call_arg};
use crate::driver::{analyze_exprs_spec, analyze_fields_spec, analyze_spec, check_expr_spec};
use crate::forbidden::{forbidden_in_expr, forbidden_in_exprs, forbidden_in_fields};
use crate::resolve::{resolve_spec, resolves_to_one_of};
use crate::table::{
    option_ext_context_path, result_ext_context_path, spec_context_paths, try_future_context_path,
    try_stream_context_path,
};

verus! {

/// One call expression the forbidden-call visitor examines: its syntactic
/// kind, its span, and the path it resolves to, if any.
pub struct CallOccurrence {
    pub kind: CallKind,
    pub span: Span,
    pub resolution: Option<Seq<Seq<char>>>,
}

/// Whether an examined call resolved to a member of the allow-list.  A call
/// that did not resolve is never allowed.
pub open spec fn occurrence_allowed(c: CallOccurrence, allowed: Seq<Seq<Seq<char>>>) -> bool {
    match c.resolution {
        Some(p) => allowed.contains(p),
        None => false,
    }
}

/// Every call expression the visitor examines in `e`, in visit order,
/// independent of any allow-list.
pub open spec fn calls_in_expr(e: Expr) -> Seq<CallOccurrence>
    decreases e, 0int,
{
    match e.kind {
        ExprKind::Call { target, callee, args } => seq![
            CallOccurrence {
                kind: CallKind::Function,
                span: e.span,
                resolution: resolve_spec(e),
            },
        ] + calls_in_exprs(args@, 0),
        ExprKind::MethodCall { target, receiver, args } => seq![
            CallOccurrence { kind: CallKind::Method, span: e.span, resolution: resolve_spec(e) },
        ] + calls_in_expr(*receiver) + calls_in_exprs(args@, 0),
        ExprKind::PathExpr { res } => Seq::empty(),
        ExprKind::StructLit { fields, base } => calls_in_fields(fields@, 0) + (match base {
            Some(b) => calls_in_expr(*b),
            None => Seq::empty(),
        }),
        ExprKind::Closure { body } => calls_in_expr(*body),
        ExprKind::Block { exprs } => calls_in_exprs(exprs@, 0),
        ExprKind::If { cond, then_branch, else_branch } => calls_in_expr(*cond) + calls_in_expr(
            *then_branch,
        ) + (match else_branch {
            Some(b) => calls_in_expr(*b),
            None => Seq::empty(),
        }),
        ExprKind::Binary { lhs, rhs } => calls_in_expr(*lhs) + calls_in_expr(*rhs),
        ExprKind::Unary { operand } => calls_in_expr(*operand),
        ExprKind::FieldAccess { base } => calls_in_expr(*base),
        ExprKind::Index { base, index } => calls_in_expr(*base) + calls_in_expr(*index),
        ExprKind::Lit => Seq::empty(),
    }
}

/// The calls the visitor examines in the expressions of `s` from index `i`
/// on, in order.
pub open spec fn calls_in_exprs(s: Seq<Expr>, i: int) -> Seq<CallOccurrence>
    decreases s, s.len() - i,
{
    if i < 0 || i >= s.len() {
        Seq::empty()
    } else {
        calls_in_expr(s[i]) + calls_in_exprs(s, i + 1)
    }
}

/// The calls the visitor examines in the field value expressions of `fields`
/// from index `i` on, in order.
pub open spec fn calls_in_fields(fields: Seq<FieldBinding>, i: int) -> Seq<CallOccurrence>
    decreases fields, fields.len() - i,
{
    if i < 0 || i >= fields.len() {
        Seq::empty()
    } else {
        calls_in_expr(fields[i].expr) + calls_in_fields(fields, i + 1)
    }
}

/// The examined calls that are not on the allow-list, in visit order.
pub open spec fn disallowed_calls(
    calls: Seq<CallOccurrence>,
    allowed: Seq<Seq<Seq<char>>>,
) -> Seq<CallOccurrence> {
    calls.filter(|c: CallOccurrence| !occurrence_allowed(c, allowed))
}

/// The finding each disallowed call is reported as.
pub open spec fn finding_of(c: CallOccurrence) -> Finding {
    Finding { kind: c.kind, span: c.span }
}

/// The findings owed for a sequence of examined calls: one per disallowed
/// call, in visit order.
pub open spec fn reported_findings(
    calls: Seq<CallOccurrence>,
    allowed: Seq<Seq<Seq<char>>>,
) -> Seq<Finding> {
    disallowed_calls(calls, allowed).map_values(|c: CallOccurrence| finding_of(c))
}

proof fn lemma_reported_empty(allowed: Seq<Seq<Seq<char>>>)
    ensures
        reported_findings(Seq::empty(), allowed) == Seq::<Finding>::empty(),
{
    reveal_with_fuel(Seq::filter, 1);
    assert(disallowed_calls(Seq::empty(), allowed) =~= Seq::<CallOccurrence>::empty());
    assert(reported_findings(Seq::empty(), allowed) =~= Seq::<Finding>::empty());
}

proof fn lemma_reported_singleton(c: CallOccurrence, allowed: Seq<Seq<Seq<char>>>)
    ensures
        occurrence_allowed(c, allowed) ==> reported_findings(seq![c], allowed)
            == Seq::<Finding>::empty(),
        !occurrence_allowed(c, allowed) ==> reported_findings(seq![c], allowed) == seq![
            finding_of(c),
        ],
{
    reveal_with_fuel(Seq::filter, 2);
    assert(seq![c].drop_last() =~= Seq::<CallOccurrence>::empty());
    if occurrence_allowed(c, allowed) {
        assert(disallowed_calls(seq![c], allowed) =~= Seq::<CallOccurrence>::empty());
        assert(reported_findings(seq![c], allowed) =~= Seq::<Finding>::empty());
    } else {
        assert(disallowed_calls(seq![c], allowed) =~= seq![c]);
        assert(reported_findings(seq![c], allowed) =~= seq![finding_of(c)]);
    }
}

proof fn lemma_reported_over_add(
    a: Seq<CallOccurrence>,
    b: Seq<CallOccurrence>,
    allowed: Seq<Seq<Seq<char>>>,
)
    ensures
        reported_findings(a + b, allowed) == reported_findings(a, allowed) + reported_findings(
            b,
            allowed,
        ),
{
    let pred = |c: CallOccurrence| !occurrence_allowed(c, allowed);
    Seq::filter_distributes_over_add(a, b, pred);
    assert((a.filter(pred) + b.filter(pred)).map_values(|c: CallOccurrence| finding_of(c))
        =~= a.filter(pred).map_values(|c: CallOccurrence| finding_of(c)) + b.filter(pred)
        .map_values(|c: CallOccurrence| finding_of(c)));
}

/// The forbidden-call visitor reports exactly the examined calls that are
/// not on the allow-list — including unresolved calls, which are never
/// allowed — one finding per call, at that call's kind and span, in visit
/// order.
pub proof fn lemma_visitor_reports_exactly_disallowed(e: Expr, allowed: Seq<Seq<Seq<char>>>)
    ensures
        forbidden_in_expr(e, allowed) == reported_findings(calls_in_expr(e), allowed),
    decreases e, 0int,
{
    match e.kind {
        ExprKind::Call { target, callee, args } => {
            let own = CallOccurrence {
                kind: CallKind::Function,
                span: e.span,
                resolution: resolve_spec(e),
            };
            lemma_visitor_reports_exactly_disallowed_exprs(args@, allowed, 0);
            lemma_reported_over_add(seq![own], calls_in_exprs(args@, 0), allowed);
            lemma_reported_singleton(own, allowed);
        },
        ExprKind::MethodCall { target, receiver, args } => {
            let own = CallOccurrence {
                kind: CallKind::Method,
                span: e.span,
                resolution: resolve_spec(e),
            };
            lemma_visitor_reports_exactly_disallowed(*receiver, allowed);
            lemma_visitor_reports_exactly_disallowed_exprs(args@, allowed, 0);
            lemma_reported_over_add(seq![own] + calls_in_expr(*receiver), calls_in_exprs(args@, 0), allowed);
            lemma_reported_over_add(seq![own], calls_in_expr(*receiver), allowed);
            lemma_reported_singleton(own, allowed);
        },
        ExprKind::PathExpr { res } => {
            lemma_reported_empty(allowed);
        },
        ExprKind::StructLit { fields, base } => {
            lemma_visitor_reports_exactly_disallowed_fields(fields@, allowed, 0);
            match base {
                Some(b) => {
                    lemma_visitor_reports_exactly_disallowed(*b, allowed);
                    lemma_reported_over_add(calls_in_fields(fields@, 0), calls_in_expr(*b), allowed);
                },
                None => {
                    lemma_reported_empty(allowed);
                    lemma_reported_over_add(calls_in_fields(fields@, 0), Seq::empty(), allowed);
                    assert(calls_in_fields(fields@, 0) + Seq::<CallOccurrence>::empty()
                        =~= calls_in_fields(fields@, 0));
                    assert(forbidden_in_fields(fields@, allowed, 0) + Seq::<Finding>::empty()
                        =~= forbidden_in_fields(fields@, allowed, 0));
                },
            }
        },
        ExprKind::Closure { body } => {
            lemma_visitor_reports_exactly_disallowed(*body, allowed);
        },
        ExprKind::Block { exprs } => {
            lemma_visitor_reports_exactly_disallowed_exprs(exprs@, allowed, 0);
        },
        ExprKind::If { cond, then_branch, else_branch } => {
            lemma_visitor_reports_exactly_disallowed(*cond, allowed);
            lemma_visitor_reports_exactly_disallowed(*then_branch, allowed);
            lemma_reported_over_add(calls_in_expr(*cond), calls_in_expr(*then_branch), allowed);
            match else_branch {
                Some(b) => {
                    lemma_visitor_reports_exactly_disallowed(*b, allowed);
                    lemma_reported_over_add(
                        calls_in_expr(*cond) + calls_in_expr(*then_branch),
                        calls_in_expr(*b),
                        allowed,
                    );
                },
                None => {
                    lemma_reported_empty(allowed);
                    lemma_reported_over_add(
                        calls_in_expr(*cond) + calls_in_expr(*then_branch),
                        Seq::empty(),
                        allowed,
                    );
                    assert(calls_in_expr(*cond) + calls_in_expr(*then_branch)
                        + Seq::<CallOccurrence>::empty() =~= calls_in_expr(*cond) + calls_in_expr(
                        *then_branch,
                    ));
                    assert(forbidden_in_expr(*cond, allowed) + forbidden_in_expr(
                        *then_branch,
                        allowed,
                    ) + Seq::<Finding>::empty() =~= forbidden_in_expr(*cond, allowed)
                        + forbidden_in_expr(*then_branch, allowed));
                },
            }
        },
        ExprKind::Binary { lhs, rhs } => {
            lemma_visitor_reports_exactly_disallowed(*lhs, allowed);
            lemma_visitor_reports_exactly_disallowed(*rhs, allowed);
            lemma_reported_over_add(calls_in_expr(*lhs), calls_in_expr(*rhs), allowed);
        },
        ExprKind::Unary { operand } => {
            lemma_visitor_reports_exactly_disallowed(*operand, allowed);
        },
        ExprKind::FieldAccess { base } => {
            lemma_visitor_reports_exactly_disallowed(*base, allowed);
        },
        ExprKind::Index { base, index } => {
            lemma_visitor_reports_exactly_disallowed(*base, allowed);
            lemma_visitor_reports_exactly_disallowed(*index, allowed);
            lemma_reported_over_add(calls_in_expr(*base), calls_in_expr(*index), allowed);
        },
        ExprKind::Lit => {
            lemma_reported_empty(allowed);
        },
    }
}

proof fn lemma_visitor_reports_exactly_disallowed_exprs(
    s: Seq<Expr>,
    allowed: Seq<Seq<Seq<char>>>,
    i: int,
)
    ensures
        forbidden_in_exprs(s, allowed, i) == reported_findings(calls_in_exprs(s, i), allowed),
    decreases s, s.len() - i,
{
    if i < 0 || i >= s.len() {
        lemma_reported_empty(allowed);
    } else {
        lemma_visitor_reports_exactly_disallowed(s[i], allowed);
        lemma_visitor_reports_exactly_disallowed_exprs(s, allowed, i + 1);
        lemma_reported_over_add(calls_in_expr(s[i]), calls_in_exprs(s, i + 1), allowed);
    }
}

proof fn lemma_visitor_reports_exactly_disallowed_fields(
    fields: Seq<FieldBinding>,
    allowed: Seq<Seq<Seq<char>>>,
    i: int,
)
    ensures
        forbidden_in_fields(fields, allowed, i) == reported_findings(
            calls_in_fields(fields, i),
            allowed,
        ),
    decreases fields, fields.len() - i,
{
    if i < 0 || i >= fields.len() {
        lemma_reported_empty(allowed);
    } else {
        lemma_visitor_reports_exactly_disallowed(fields[i].expr, allowed);
        lemma_visitor_reports_exactly_disallowed_fields(fields, allowed, i + 1);
        lemma_reported_over_add(calls_in_expr(fields[i].expr), calls_in_fields(fields, i + 1), allowed);
    }
}

/// A field expression that performs no call at all yields no finding, under
/// any allow-list.
pub proof fn lemma_no_calls_no_findings(e: Expr, allowed: Seq<Seq<Seq<char>>>)
    requires
        calls_in_expr(e).len() == 0,
    ensures
        forbidden_in_expr(e, allowed) == Seq::<Finding>::empty(),
{
    lemma_visitor_reports_exactly_disallowed(e, allowed);
    assert(calls_in_expr(e) =~= Seq::<CallOccurrence>::empty());
    lemma_reported_empty(allowed);
}

/// A context-attachment call none of whose struct-literal fields performs a
/// call yields no finding at all.
pub proof fn lemma_call_free_fields_no_findings(
    e: Expr,
    context_like: Seq<Seq<Seq<char>>>,
    allowed: Seq<Seq<Seq<char>>>,
)
    requires
        forall|j: int| 0 <= j < context_fields_spec(e).len() ==> calls_in_expr(
            #[trigger] context_fields_spec(e)[j].expr,
        ).len() == 0,
    ensures
        check_expr_spec(e, context_like, allowed) == Seq::<Finding>::empty(),
{
    if is_context_call_spec(e, context_like) {
        lemma_call_free_fields_aux(context_fields_spec(e), allowed, 0);
    }
}

proof fn lemma_call_free_fields_aux(
    fields: Seq<FieldBinding>,
    allowed: Seq<Seq<Seq<char>>>,
    i: int,
)
    requires
        forall|j: int| 0 <= j < fields.len() ==> calls_in_expr(#[trigger] fields[j].expr).len()
            == 0,
    ensures
        forbidden_in_fields(fields, allowed, i) == Seq::<Finding>::empty(),
    decreases fields, fields.len() - i,
{
    if 0 <= i < fields.len() {
        lemma_no_calls_no_findings(fields[i].expr, allowed);
        lemma_call_free_fields_aux(fields, allowed, i + 1);
        assert(Seq::<Finding>::empty() + Seq::<Finding>::empty() =~= Seq::<Finding>::empty());
    }
}

/// When exactly one examined call of a field expression is not on the
/// allow-list, exactly one finding is produced, at that call's kind and span
/// — however deeply the call is nested in parentheses, blocks or other
/// compound shapes.
pub proof fn lemma_one_disallowed_call_one_finding(e: Expr, allowed: Seq<Seq<Seq<char>>>)
    requires
        disallowed_calls(calls_in_expr(e), allowed).len() == 1,
    ensures
        forbidden_in_expr(e, allowed).len() == 1,
        forbidden_in_expr(e, allowed)[0] == finding_of(
            disallowed_calls(calls_in_expr(e), allowed)[0],
        ),
{
    lemma_visitor_reports_exactly_disallowed(e, allowed);
}

/// A field expression all of whose examined calls resolve to allowed paths
/// yields no finding.
pub proof fn lemma_all_calls_allowed_no_findings(e: Expr, allowed: Seq<Seq<Seq<char>>>)
    requires
        forall|j: int| 0 <= j < calls_in_expr(e).len() ==> occurrence_allowed(
            #[trigger] calls_in_expr(e)[j],
            allowed,
        ),
    ensures
        forbidden_in_expr(e, allowed) == Seq::<Finding>::empty(),
{
    lemma_visitor_reports_exactly_disallowed(e, allowed);
    let calls = calls_in_expr(e);
    let pred = |c: CallOccurrence| !occurrence_allowed(c, allowed);
    let kept = calls.filter(pred);
    if kept.len() > 0 {
        assert(pred(kept[0]));
        assert(kept.contains(kept[0]));
        calls.lemma_filter_contains_rev(pred, kept[0]);
        assert(calls.contains(kept[0]));
        let j = choose|j: int| 0 <= j < calls.len() && calls[j] == kept[0];
        assert(occurrence_allowed(calls[j], allowed));
        assert(false);
    }
    assert(kept =~= Seq::<CallOccurrence>::empty());
    lemma_reported_empty(allowed);
}

/// A call that does not resolve to a member of the allow-list — whether it
/// resolves elsewhere or does not resolve at all — is always reported, as
/// the first finding of its own subtree, with its kind and span.  Together
/// with exact matching this is the other half of allow-list suppression:
/// entries exempt the paths they spell, and only those.
pub proof fn lemma_disallowed_call_reported(e: Expr, allowed: Seq<Seq<Seq<char>>>)
    requires
        e.kind is Call || e.kind is MethodCall,
        !resolves_to_one_of(e, allowed),
    ensures
        forbidden_in_expr(e, allowed).len() >= 1,
        forbidden_in_expr(e, allowed)[0] == (Finding {
            kind: if e.kind is Call {
                CallKind::Function
            } else {
                CallKind::Method
            },
            span: e.span,
        }),
{
}

/// An expression that does not resolve to one of the context-attachment
/// paths — a `context`-named method of an unrelated type among them — is
/// never treated as a context-attachment call, whatever its argument holds.
pub proof fn lemma_non_context_call_yields_nothing(
    e: Expr,
    context_like: Seq<Seq<Seq<char>>>,
    allowed: Seq<Seq<Seq<char>>>,
)
    requires
        !resolves_to_one_of(e, context_like),
    ensures
        !is_context_call_spec(e, context_like),
        check_expr_spec(e, context_like, allowed) == Seq::<Finding>::empty(),
{
}

/// Each of the four built-in context-attachment path forms is individually
/// matched: a single-argument call with a struct-literal argument resolving
/// to any one of them is a context-attachment call.
pub proof fn lemma_each_builtin_form_triggers(e: Expr, p: Seq<Seq<char>>)
    requires
        p == try_future_context_path() || p == try_stream_context_path() || p
            == option_ext_context_path() || p == result_ext_context_path(),
        resolve_spec(e) == Some(p),
        single_call_arg(e) matches Some(arg) && arg.kind is StructLit,
    ensures
        is_context_call_spec(e, spec_context_paths()),
{
    if p == try_future_context_path() {
        assert(spec_context_paths()[0] == p);
    } else if p == try_stream_context_path() {
        assert(spec_context_paths()[1] == p);
    } else if p == option_ext_context_path() {
        assert(spec_context_paths()[2] == p);
    } else {
        assert(spec_context_paths()[3] == p);
    }
}

/// Closure-body descent: the findings of an inline closure are exactly the
/// findings of its body, so a call hidden inside a closure invoked within
/// the field expression is still reported.
pub proof fn lemma_closure_body_descended(e: Expr, allowed: Seq<Seq<Seq<char>>>)
    requires
        e.kind is Closure,
    ensures
        forbidden_in_expr(e, allowed) == forbidden_in_expr(*e.kind->body, allowed),
{
}

/// Every expression of the tree rooted at `e`, in depth-first visit order,
/// the root first.
pub open spec fn exprs_in_tree(e: Expr) -> Seq<Expr>
    decreases e, 0int,
{
    seq![e] + (match e.kind {
        ExprKind::Call { target, callee, args } => exprs_in_tree(*callee) + exprs_in_trees(
            args@,
            0,
        ),
        ExprKind::MethodCall { target, receiver, args } => exprs_in_tree(*receiver)
            + exprs_in_trees(args@, 0),
        ExprKind::PathExpr { res } => Seq::empty(),
        ExprKind::StructLit { fields, base } => exprs_in_tree_fields(fields@, 0) + (match base {
            Some(b) => exprs_in_tree(*b),
            None => Seq::empty(),
        }),
        ExprKind::Closure { body } => exprs_in_tree(*body),
        ExprKind::Block { exprs } => exprs_in_trees(exprs@, 0),
        ExprKind::If { cond, then_branch, else_branch } => exprs_in_tree(*cond) + exprs_in_tree(
            *then_branch,
        ) + (match else_branch {
            Some(b) => exprs_in_tree(*b),
            None => Seq::empty(),
        }),
        ExprKind::Binary { lhs, rhs } => exprs_in_tree(*lhs) + exprs_in_tree(*rhs),
        ExprKind::Unary { operand } => exprs_in_tree(*operand),
        ExprKind::FieldAccess { base } => exprs_in_tree(*base),
        ExprKind::Index { base, index } => exprs_in_tree(*base) + exprs_in_tree(*index),
        ExprKind::Lit => Seq::empty(),
    })
}

/// The expressions of the trees rooted in `s` from index `i` on.
pub open spec fn exprs_in_trees(s: Seq<Expr>, i: int) -> Seq<Expr>
    decreases s, s.len() - i,
{
    if i < 0 || i >= s.len() {
        Seq::empty()
    } else {
        exprs_in_tree(s[i]) + exprs_in_trees(s, i + 1)
    }
}

/// The expressions of the trees rooted in the field values of `fields` from
/// index `i` on.
pub open spec fn exprs_in_tree_fields(fields: Seq<FieldBinding>, i: int) -> Seq<Expr>
    decreases fields, fields.len() - i,
{
    if i < 0 || i >= fields.len() {
        Seq::empty()
    } else {
        exprs_in_tree(fields[i].expr) + exprs_in_tree_fields(fields, i + 1)
    }
}

/// The findings of checking each of `nodes` on its own, concatenated in
/// order.
pub open spec fn checks_of(
    nodes: Seq<Expr>,
    context_like: Seq<Seq<Seq<char>>>,
    allowed: Seq<Seq<Seq<char>>>,
) -> Seq<Finding>
    decreases nodes.len(),
{
    if nodes.len() == 0 {
        Seq::empty()
    } else {
        check_expr_spec(nodes[0], context_like, allowed) + checks_of(
            nodes.drop_first(),
            context_like,
            allowed,
        )
    }
}

proof fn lemma_checks_of_add(
    a: Seq<Expr>,
    b: Seq<Expr>,
    context_like: Seq<Seq<Seq<char>>>,
    allowed: Seq<Seq<Seq<char>>>,
)
    ensures
        checks_of(a + b, context_like, allowed) == checks_of(a, context_like, allowed) + checks_of(
            b,
            context_like,
            allowed,
        ),
    decreases a.len(),
{
    if a.len() == 0 {
        assert(a + b =~= b);
        assert(Seq::<Finding>::empty() + checks_of(b, context_like, allowed) =~= checks_of(
            b,
            context_like,
            allowed,
        ));
    } else {
        assert((a + b).drop_first() =~= a.drop_first() + b);
        assert((a + b)[0] == a[0]);
        lemma_checks_of_add(a.drop_first(), b, context_like, allowed);
        assert(check_expr_spec(a[0], context_like, allowed) + (checks_of(
            a.drop_first(),
            context_like,
            allowed,
        ) + checks_of(b, context_like, allowed)) =~= (check_expr_spec(a[0], context_like, allowed)
            + checks_of(a.drop_first(), context_like, allowed)) + checks_of(
            b,
            context_like,
            allowed,
        ));
    }
}

proof fn lemma_checks_of_singleton(
    e: Expr,
    context_like: Seq<Seq<Seq<char>>>,
    allowed: Seq<Seq<Seq<char>>>,
)
    ensures
        checks_of(seq![e], context_like, allowed) == check_expr_spec(e, context_like, allowed),
{
    reveal_with_fuel(checks_of, 2);
    assert(seq![e].drop_first() =~= Seq::<Expr>::empty());
    assert(checks_of(Seq::<Expr>::empty(), context_like, allowed) == Seq::<Finding>::empty());
    assert(check_expr_spec(e, context_like, allowed) + Seq::<Finding>::empty() =~= check_expr_spec(
        e,
        context_like,
        allowed,
    ));
}

/// The driver carries no state across expressions: walking the tree is the
/// same as checking every expression of the tree independently, in visit
/// order, and concatenating the findings.  In particular a
/// context-attachment call nested inside another's field is found by its own
/// check, with no re-entrant handling.
pub proof fn lemma_driver_checks_each_expression_independently(
    e: Expr,
    context_like: Seq<Seq<Seq<char>>>,
    allowed: Seq<Seq<Seq<char>>>,
)
    ensures
        analyze_spec(e, context_like, allowed) == checks_of(
            exprs_in_tree(e),
            context_like,
            allowed,
        ),
    decreases e, 0int,
{
    lemma_checks_of_singleton(e, context_like, allowed);
    match e.kind {
        ExprKind::Call { target, callee, args } => {
            lemma_driver_checks_each_expression_independently(*callee, context_like, allowed);
            lemma_driver_exprs(args@, context_like, allowed, 0);
            lemma_checks_of_add(exprs_in_tree(*callee), exprs_in_trees(args@, 0), context_like, allowed);
            lemma_checks_of_add(
                seq![e],
                exprs_in_tree(*callee) + exprs_in_trees(args@, 0),
                context_like,
                allowed,
            );
        },
        ExprKind::MethodCall { target, receiver, args } => {
            lemma_driver_checks_each_expression_independently(*receiver, context_like, allowed);
            lemma_driver_exprs(args@, context_like, allowed, 0);
            lemma_checks_of_add(exprs_in_tree(*receiver), exprs_in_trees(args@, 0), context_like, allowed);
            lemma_checks_of_add(
                seq![e],
                exprs_in_tree(*receiver) + exprs_in_trees(args@, 0),
                context_like,
                allowed,
            );
        },
        ExprKind::PathExpr { res } => {
            lemma_checks_of_add(seq![e], Seq::empty(), context_like, allowed);
            assert(seq![e] + Seq::<Expr>::empty() =~= seq![e]);
            assert(check_expr_spec(e, context_like, allowed) + Seq::<Finding>::empty()
                =~= check_expr_spec(e, context_like, allowed));
        },
        ExprKind::StructLit { fields, base } => {
            lemma_driver_fields(fields@, context_like, allowed, 0);
            let tail = match base {
                Some(b) => exprs_in_tree(*b),
                None => Seq::empty(),
            };
            match base {
                Some(b) => {
                    lemma_driver_checks_each_expression_independently(*b, context_like, allowed);
                },
                None => {
                    assert(exprs_in_tree_fields(fields@, 0) + tail =~= exprs_in_tree_fields(
                        fields@,
                        0,
                    ));
                    assert(analyze_fields_spec(fields@, context_like, allowed, 0)
                        + Seq::<Finding>::empty() =~= analyze_fields_spec(
                        fields@,
                        context_like,
                        allowed,
                        0,
                    ));
                },
            }
            lemma_checks_of_add(exprs_in_tree_fields(fields@, 0), tail, context_like, allowed);
            lemma_checks_of_add(
                seq![e],
                exprs_in_tree_fields(fields@, 0) + tail,
                context_like,
                allowed,
            );
        },
        ExprKind::Closure { body } => {
            lemma_driver_checks_each_expression_independently(*body, context_like, allowed);
            lemma_checks_of_add(seq![e], exprs_in_tree(*body), context_like, allowed);
        },
        ExprKind::Block { exprs } => {
            lemma_driver_exprs(exprs@, context_like, allowed, 0);
            lemma_checks_of_add(seq![e], exprs_in_trees(exprs@, 0), context_like, allowed);
        },
        ExprKind::If { cond, then_branch, else_branch } => {
            lemma_driver_checks_each_expression_independently(*cond, context_like, allowed);
            lemma_driver_checks_each_expression_independently(*then_branch, context_like, allowed);
            let tail = match else_branch {
                Some(b) => exprs_in_tree(*b),
                None => Seq::empty(),
            };
            match else_branch {
                Some(b) => {
                    lemma_driver_checks_each_expression_independently(*b, context_like, allowed);
                },
                None => {
                    assert(exprs_in_tree(*cond) + exprs_in_tree(*then_branch) + tail
                        =~= exprs_in_tree(*cond) + exprs_in_tree(*then_branch));
                    assert(analyze_spec(*cond, context_like, allowed) + analyze_spec(
                        *then_branch,
                        context_like,
                        allowed,
                    ) + Seq::<Finding>::empty() =~= analyze_spec(*cond, context_like, allowed)
                        + analyze_spec(*then_branch, context_like, allowed));
                },
            }
            lemma_checks_of_add(exprs_in_tree(*cond), exprs_in_tree(*then_branch), context_like, allowed);
            lemma_checks_of_add(
                exprs_in_tree(*cond) + exprs_in_tree(*then_branch),
                tail,
                context_like,
                allowed,
            );
            lemma_checks_of_add(
                seq![e],
                exprs_in_tree(*cond) + exprs_in_tree(*then_branch) + tail,
                context_like,
                allowed,
            );
        },
        ExprKind::Binary { lhs, rhs } => {
            lemma_driver_checks_each_expression_independently(*lhs, context_like, allowed);
            lemma_driver_checks_each_expression_independently(*rhs, context_like, allowed);
            lemma_checks_of_add(exprs_in_tree(*lhs), exprs_in_tree(*rhs), context_like, allowed);
            lemma_checks_of_add(
                seq![e],
                exprs_in_tree(*lhs) + exprs_in_tree(*rhs),
                context_like,
                allowed,
            );
        },
        ExprKind::Unary { operand } => {
            lemma_driver_checks_each_expression_independently(*operand, context_like, allowed);
            lemma_checks_of_add(seq![e], exprs_in_tree(*operand), context_like, allowed);
        },
        ExprKind::FieldAccess { base } => {
            lemma_driver_checks_each_expression_independently(*base, context_like, allowed);
            lemma_checks_of_add(seq![e], exprs_in_tree(*base), context_like, allowed);
        },
        ExprKind::Index { base, index } => {
            lemma_driver_checks_each_expression_independently(*base, context_like, allowed);
            lemma_driver_checks_each_expression_independently(*index, context_like, allowed);
            lemma_checks_of_add(exprs_in_tree(*base), exprs_in_tree(*index), context_like, allowed);
            lemma_checks_of_add(
                seq![e],
                exprs_in_tree(*base) + exprs_in_tree(*index),
                context_like,
                allowed,
            );
        },
        ExprKind::Lit => {
            lemma_checks_of_add(seq![e], Seq::empty(), context_like, allowed);
            assert(seq![e] + Seq::<Expr>::empty() =~= seq![e]);
            assert(check_expr_spec(e, context_like, allowed) + Seq::<Finding>::empty()
                =~= check_expr_spec(e, context_like, allowed));
        },
    }
}

proof fn lemma_driver_exprs(
    s: Seq<Expr>,
    context_like: Seq<Seq<Seq<char>>>,
    allowed: Seq<Seq<Seq<char>>>,
    i: int,
)
    ensures
        analyze_exprs_spec(s, context_like, allowed, i) == checks_of(
            exprs_in_trees(s, i),
            context_like,
            allowed,
        ),
    decreases s, s.len() - i,
{
    if i < 0 || i >= s.len() {
    } else {
        lemma_driver_checks_each_expression_independently(s[i], context_like, allowed);
        lemma_driver_exprs(s, context_like, allowed, i + 1);
        lemma_checks_of_add(exprs_in_tree(s[i]), exprs_in_trees(s, i + 1), context_like, allowed);
    }
}

proof fn lemma_driver_fields(
    fields: Seq<FieldBinding>,
    context_like: Seq<Seq<Seq<char>>>,
    allowed: Seq<Seq<Seq<char>>>,
    i: int,
)
    ensures
        analyze_fields_spec(fields, context_like, allowed, i) == checks_of(
            exprs_in_tree_fields(fields, i),
            context_like,
            allowed,
        ),
    decreases fields, fields.len() - i,
{
    if i < 0 || i >= fields.len() {
    } else {
        lemma_driver_checks_each_expression_independently(fields[i].expr, context_like, allowed);
        lemma_driver_fields(fields, context_like, allowed, i + 1);
        lemma_checks_of_add(
            exprs_in_tree(fields[i].expr),
            exprs_in_tree_fields(fields, i + 1),
            context_like,
            allowed,
        );
    }
}

/// Idempotence: the analysis is a pure function of the tree and the two
/// path sets, so two runs over the same unchanged tree produce the identical
/// ordered sequence of findings.
pub proof fn lemma_analysis_idempotent(
    first: Seq<Finding>,
    second: Seq<Finding>,
    e: Expr,
    context_like: Seq<Seq<Seq<char>>>,
    allowed: Seq<Seq<Seq<char>>>,
)
    requires
        first == analyze_spec(e, context_like, allowed),
        second == analyze_spec(e, context_like, allowed),
    ensures
        first == second,
{
}

} // verus!
