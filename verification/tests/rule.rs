//! Scenario tests for the rule driver over hand-built expression trees,
//! mirroring the call forms the rule is meant to flag or pass.

use snafu_context_fun_call::{
    CallKind, Expr, ExprKind, FieldBinding, Finding, PathSet, QualifiedPath, Rule, Span, analyze,
    check_expr, find_forbidden, resolve,
};

fn sp(n: u64) -> Span {
    Span { lo: 10 * n, hi: 10 * n + 9 }
}

fn qpath(segments: &[&str]) -> QualifiedPath {
    QualifiedPath { segments: segments.iter().map(|s| s.to_string()).collect() }
}

fn lit(n: u64) -> Expr {
    Expr { span: sp(n), kind: ExprKind::Lit }
}

fn path_expr(n: u64, res: Option<QualifiedPath>) -> Expr {
    Expr { span: sp(n), kind: ExprKind::PathExpr { res } }
}

fn call(n: u64, target: Option<QualifiedPath>, callee: Expr, args: Vec<Expr>) -> Expr {
    Expr { span: sp(n), kind: ExprKind::Call { target, callee: Box::new(callee), args } }
}

fn method_call(n: u64, target: Option<QualifiedPath>, receiver: Expr, args: Vec<Expr>) -> Expr {
    Expr {
        span: sp(n),
        kind: ExprKind::MethodCall { target, receiver: Box::new(receiver), args },
    }
}

fn struct_lit(n: u64, fields: Vec<FieldBinding>, base: Option<Expr>) -> Expr {
    Expr { span: sp(n), kind: ExprKind::StructLit { fields, base: base.map(Box::new) } }
}

fn field(name: &str, expr: Expr) -> FieldBinding {
    FieldBinding { name: name.to_string(), expr }
}

fn block(n: u64, exprs: Vec<Expr>) -> Expr {
    Expr { span: sp(n), kind: ExprKind::Block { exprs } }
}

fn closure(n: u64, body: Expr) -> Expr {
    Expr { span: sp(n), kind: ExprKind::Closure { body: Box::new(body) } }
}

fn result_ext_context() -> Option<QualifiedPath> {
    Some(qpath(&["snafu", "ResultExt", "context"]))
}

/// `r().context(Snafu { name: ... })`: a method call resolving to the
/// Result-extension context method, with the given field value.
fn context_call(n: u64, field_value: Expr) -> Expr {
    method_call(
        n,
        result_ext_context(),
        lit(90),
        vec![struct_lit(91, vec![field("name", field_value)], None)],
    )
}

fn default_rule() -> Rule {
    Rule::new(&Vec::new())
}

#[test]
fn no_call_in_field_no_finding() {
    // ctx(Selector { name: name }) — the field is a plain path expression.
    let rule = default_rule();
    let e = context_call(1, path_expr(2, None));
    let findings = check_expr(&rule, &e);
    assert_eq!(findings.len(), 0);
}

#[test]
fn function_call() {
    // let _ = r().context(Snafu { name: make_name() });
    let rule = default_rule();
    let make_name = call(
        3,
        None,
        path_expr(4, Some(qpath(&["main", "function_call", "make_name"]))),
        Vec::new(),
    );
    let e = context_call(1, make_name);
    let findings = check_expr(&rule, &e);
    assert_eq!(findings.len(), 1);
    assert_eq!(findings[0], Finding { kind: CallKind::Function, span: sp(3) });
}

#[test]
fn method_call_flagged() {
    // let _ = r().context(Snafu { name: name.to_string() });
    let rule = default_rule();
    let to_string = method_call(
        3,
        Some(qpath(&["alloc", "string", "ToString", "to_string"])),
        path_expr(4, None),
        Vec::new(),
    );
    let e = context_call(1, to_string);
    let findings = check_expr(&rule, &e);
    assert_eq!(findings.len(), 1);
    assert_eq!(findings[0], Finding { kind: CallKind::Method, span: sp(3) });
}

#[test]
fn closure_call() {
    // let make_name = || ...; r().context(Snafu { name: make_name() });
    // The callee is a local binding, so the oracle has no definition for it:
    // the call is unresolved and conservatively flagged.
    let rule = default_rule();
    let unresolved = call(3, None, path_expr(4, None), Vec::new());
    let e = context_call(1, unresolved);
    let findings = check_expr(&rule, &e);
    assert_eq!(findings.len(), 1);
    assert_eq!(findings[0], Finding { kind: CallKind::Function, span: sp(3) });
}

#[test]
fn nested_call() {
    // name: ({ ({ "hi".to_string() }) }) — one finding despite the nesting.
    let rule = default_rule();
    let to_string = method_call(
        3,
        Some(qpath(&["alloc", "string", "ToString", "to_string"])),
        lit(4),
        Vec::new(),
    );
    let nested = block(5, vec![block(6, vec![to_string])]);
    let e = context_call(1, nested);
    let findings = check_expr(&rule, &e);
    assert_eq!(findings.len(), 1);
    assert_eq!(findings[0], Finding { kind: CallKind::Method, span: sp(3) });
}

#[test]
fn call_inside_closure_reported_once() {
    // name: (|| make_name())() — the call hidden in the closure body is found.
    let rule = default_rule();
    let inner = call(
        3,
        None,
        path_expr(4, Some(qpath(&["main", "closure_call", "make_name"]))),
        Vec::new(),
    );
    let e = context_call(1, closure(5, inner));
    let findings = check_expr(&rule, &e);
    assert_eq!(findings.len(), 1);
    assert_eq!(findings[0], Finding { kind: CallKind::Function, span: sp(3) });
}

#[test]
fn context_method_not_from_snafu() {
    // NotResult.context(Args { name: "hi".to_string() }) — the `context`
    // method of an unrelated type is no context-attachment call.
    let rule = default_rule();
    let to_string = method_call(
        3,
        Some(qpath(&["alloc", "string", "ToString", "to_string"])),
        lit(4),
        Vec::new(),
    );
    let e = method_call(
        1,
        Some(qpath(&["main", "context_method_not_from_snafu", "NotResultExt", "context"])),
        lit(2),
        vec![struct_lit(5, vec![field("name", to_string)], None)],
    );
    let findings = check_expr(&rule, &e);
    assert_eq!(findings.len(), 0);
    let findings = analyze(&rule, &e);
    assert_eq!(findings.len(), 0);
}

#[test]
fn allows_some_calls() {
    let rule = default_rule();
    let string_as_str = qpath(&["alloc", "string", "String", "as_str"]);
    let as_ref = qpath(&["core", "convert", "AsRef", "as_ref"]);

    // Inherent method as a method: string.as_str()
    let e = context_call(
        1,
        method_call(2, Some(string_as_str.clone()), path_expr(3, None), Vec::new()),
    );
    assert_eq!(check_expr(&rule, &e).len(), 0);

    // Inherent method as a function: String::as_str(&string)
    let e = context_call(
        1,
        call(
            2,
            None,
            path_expr(3, Some(string_as_str.clone())),
            vec![path_expr(4, None)],
        ),
    );
    assert_eq!(check_expr(&rule, &e).len(), 0);

    // Trait method in qualified form: <_ as AsRef<str>>::as_ref(&string).
    // The oracle answers at the call position for this form.
    let e = context_call(
        1,
        call(2, Some(as_ref.clone()), path_expr(3, None), vec![path_expr(4, None)]),
    );
    assert_eq!(check_expr(&rule, &e).len(), 0);

    // Qualified form resolved through the callee path expression instead.
    let e = context_call(
        1,
        call(2, None, path_expr(3, Some(as_ref.clone())), vec![path_expr(4, None)]),
    );
    assert_eq!(check_expr(&rule, &e).len(), 0);

    // Trait method through deref / on a generically-bounded parameter: the
    // oracle has already resolved the dispatch to the trait method.
    let e = context_call(
        1,
        method_call(2, Some(as_ref.clone()), path_expr(3, None), Vec::new()),
    );
    assert_eq!(check_expr(&rule, &e).len(), 0);

    // A look-alike `as_str` of another type is not the allowed one.
    let similar = qpath(&["main", "allows_some_calls", "SimilarMethods", "as_str"]);
    let e = context_call(
        1,
        method_call(2, Some(similar.clone()), path_expr(3, None), Vec::new()),
    );
    let findings = check_expr(&rule, &e);
    assert_eq!(findings.len(), 1);
    assert_eq!(findings[0], Finding { kind: CallKind::Method, span: sp(2) });

    let e = context_call(1, call(2, None, path_expr(3, Some(similar)), vec![path_expr(4, None)]));
    let findings = check_expr(&rule, &e);
    assert_eq!(findings.len(), 1);
    assert_eq!(findings[0], Finding { kind: CallKind::Function, span: sp(2) });
}

#[test]
fn context_from_all_extension_traits() {
    // Each of the four built-in context-attachment forms triggers the check.
    let rule = default_rule();
    let forms: [&[&str]; 4] = [
        &["snafu", "futures", "try_future", "TryFutureExt", "context"],
        &["snafu", "futures", "try_stream", "TryStreamExt", "context"],
        &["snafu", "OptionExt", "context"],
        &["snafu", "ResultExt", "context"],
    ];
    for (i, form) in forms.iter().enumerate() {
        let n = 10 + i as u64;
        let make_name = call(
            n + 100,
            None,
            path_expr(n + 200, Some(qpath(&["main", "ext", "make_name"]))),
            Vec::new(),
        );
        let e = method_call(
            n,
            Some(qpath(form)),
            lit(90),
            vec![struct_lit(91, vec![field("name", make_name)], None)],
        );
        let findings = check_expr(&rule, &e);
        assert_eq!(findings.len(), 1);
        assert_eq!(findings[0], Finding { kind: CallKind::Function, span: sp(n + 100) });
    }
}

#[test]
fn nested_forbidden_calls_both_reported() {
    // name: f(g()) with neither allowed: each call is reported on its own,
    // the outer one first.
    let rule = default_rule();
    let g = call(3, None, path_expr(4, Some(qpath(&["main", "g"]))), Vec::new());
    let f = call(2, None, path_expr(5, Some(qpath(&["main", "f"]))), vec![g]);
    let e = context_call(1, f);
    let findings = check_expr(&rule, &e);
    assert_eq!(findings.len(), 2);
    assert_eq!(findings[0], Finding { kind: CallKind::Function, span: sp(2) });
    assert_eq!(findings[1], Finding { kind: CallKind::Function, span: sp(3) });
}

#[test]
fn allowed_call_arguments_still_visited() {
    // name: String::as_str(&make_name()) — the allowed call itself passes,
    // but the call inside its argument is still found.
    let rule = default_rule();
    let make_name = call(3, None, path_expr(4, Some(qpath(&["main", "make_name"]))), Vec::new());
    let as_str = call(
        2,
        None,
        path_expr(5, Some(qpath(&["alloc", "string", "String", "as_str"]))),
        vec![make_name],
    );
    let e = context_call(1, as_str);
    let findings = check_expr(&rule, &e);
    assert_eq!(findings.len(), 1);
    assert_eq!(findings[0], Finding { kind: CallKind::Function, span: sp(3) });
}

#[test]
fn struct_literal_base_not_examined() {
    // ctx(Selector { name: name, ..base() }) — the base expression's fields
    // are not part of the check.
    let rule = default_rule();
    let base_call = call(3, None, path_expr(4, Some(qpath(&["main", "base"]))), Vec::new());
    let e = method_call(
        1,
        result_ext_context(),
        lit(90),
        vec![struct_lit(91, vec![field("name", path_expr(5, None))], Some(base_call))],
    );
    assert_eq!(check_expr(&rule, &e).len(), 0);
}

#[test]
fn two_argument_call_is_no_context_call() {
    // A call resolving to a context path but with two explicit arguments
    // does not fit the expected shape.
    let rule = default_rule();
    let make_name = call(3, None, path_expr(4, None), Vec::new());
    let e = method_call(
        1,
        result_ext_context(),
        lit(90),
        vec![struct_lit(91, vec![field("name", make_name)], None), lit(92)],
    );
    assert_eq!(check_expr(&rule, &e).len(), 0);
}

#[test]
fn non_struct_argument_is_no_context_call() {
    let rule = default_rule();
    let make_name = call(3, None, path_expr(4, None), Vec::new());
    let e = method_call(1, result_ext_context(), lit(90), vec![make_name]);
    assert_eq!(check_expr(&rule, &e).len(), 0);
}

#[test]
fn unresolved_outer_call_skipped() {
    // An unresolved call with a struct-literal argument is no context call:
    // the expression is skipped, not flagged.
    let rule = default_rule();
    let make_name = call(3, None, path_expr(4, None), Vec::new());
    let e = method_call(
        1,
        None,
        lit(90),
        vec![struct_lit(91, vec![field("name", make_name)], None)],
    );
    assert_eq!(check_expr(&rule, &e).len(), 0);
    assert_eq!(analyze(&rule, &e).len(), 0);
}

#[test]
fn user_configured_allow_entry_suppresses_exactly() {
    let rule = Rule::new(&vec!["mycrate :: util ::helper".to_string()]);

    // A call resolving to exactly the configured path passes.
    let helper = qpath(&["mycrate", "util", "helper"]);
    let e = context_call(1, call(2, None, path_expr(3, Some(helper)), Vec::new()));
    assert_eq!(check_expr(&rule, &e).len(), 0);

    // A prefix of the configured path is still flagged.
    let prefix = qpath(&["mycrate", "util"]);
    let e = context_call(1, call(2, None, path_expr(3, Some(prefix)), Vec::new()));
    assert_eq!(check_expr(&rule, &e).len(), 1);

    // An extension of the configured path is still flagged.
    let longer = qpath(&["mycrate", "util", "helper", "inner"]);
    let e = context_call(1, call(2, None, path_expr(3, Some(longer)), Vec::new()));
    assert_eq!(check_expr(&rule, &e).len(), 1);
}

#[test]
fn driver_walks_whole_tree() {
    // The driver checks every expression independently: a context call
    // nested inside another context call's field is found on its own, and
    // the inner context call is itself a forbidden call of the outer field.
    let rule = default_rule();
    let make_name = call(5, None, path_expr(6, Some(qpath(&["main", "make_name"]))), Vec::new());
    let inner = context_call(3, make_name);
    let outer = context_call(1, inner);
    let findings = analyze(&rule, &outer);
    assert_eq!(
        findings,
        vec![
            Finding { kind: CallKind::Method, span: sp(3) },
            Finding { kind: CallKind::Function, span: sp(5) },
            Finding { kind: CallKind::Function, span: sp(5) },
        ]
    );
}

#[test]
fn analysis_is_idempotent() {
    let rule = default_rule();
    let make_name = call(3, None, path_expr(4, Some(qpath(&["main", "make_name"]))), Vec::new());
    let e = block(
        7,
        vec![
            context_call(1, make_name),
            context_call(
                8,
                method_call(9, Some(qpath(&["alloc", "string", "String", "as_str"])), lit(92), Vec::new()),
            ),
        ],
    );
    let first = analyze(&rule, &e);
    let second = analyze(&rule, &e);
    assert_eq!(first, second);
    assert_eq!(first.len(), 1);
}

#[test]
fn visitor_descends_through_compound_shapes() {
    // if cond() { -lhs().f } else { arr[idx()] } — every call is found, in
    // visit order, whatever shape surrounds it.
    let allowed = PathSet { paths: Vec::new() };
    let cond = call(1, None, path_expr(2, Some(qpath(&["main", "cond"]))), Vec::new());
    let lhs = call(3, None, path_expr(4, Some(qpath(&["main", "lhs"]))), Vec::new());
    let neg = Expr {
        span: sp(5),
        kind: ExprKind::Unary {
            operand: Box::new(Expr {
                span: sp(6),
                kind: ExprKind::FieldAccess { base: Box::new(lhs) },
            }),
        },
    };
    let idx = call(7, None, path_expr(8, Some(qpath(&["main", "idx"]))), Vec::new());
    let indexed = Expr {
        span: sp(9),
        kind: ExprKind::Index { base: Box::new(lit(10)), index: Box::new(idx) },
    };
    let e = Expr {
        span: sp(11),
        kind: ExprKind::If {
            cond: Box::new(cond),
            then_branch: Box::new(neg),
            else_branch: Some(Box::new(indexed)),
        },
    };
    let findings = find_forbidden(&e, &allowed);
    assert_eq!(
        findings,
        vec![
            Finding { kind: CallKind::Function, span: sp(1) },
            Finding { kind: CallKind::Function, span: sp(3) },
            Finding { kind: CallKind::Function, span: sp(7) },
        ]
    );
}

#[test]
fn visitor_descends_into_struct_base_of_field_value() {
    // Inside a field value, a nested struct literal is an ordinary compound
    // expression: both its fields and its base are walked.
    let allowed = PathSet { paths: Vec::new() };
    let in_field = call(1, None, path_expr(2, None), Vec::new());
    let in_base = call(3, None, path_expr(4, None), Vec::new());
    let e = struct_lit(5, vec![field("name", in_field)], Some(in_base));
    let findings = find_forbidden(&e, &allowed);
    assert_eq!(
        findings,
        vec![
            Finding { kind: CallKind::Function, span: sp(1) },
            Finding { kind: CallKind::Function, span: sp(3) },
        ]
    );
}

#[test]
fn resolver_prefers_oracle_then_callee_path() {
    // The oracle's answer at the call position wins; failing that, the
    // resolution of a path-expression callee is used; failing both, the
    // call is unresolved.
    let oracle = qpath(&["a", "b"]);
    let through_path = qpath(&["c", "d"]);
    let e = call(1, Some(oracle), path_expr(2, Some(qpath(&["x", "y"]))), Vec::new());
    assert_eq!(resolve(&e).unwrap().segments, vec!["a", "b"]);
    let e = call(1, None, path_expr(2, Some(through_path)), Vec::new());
    assert_eq!(resolve(&e).unwrap().segments, vec!["c", "d"]);
    let e = call(1, None, lit(2), Vec::new());
    assert!(resolve(&e).is_none());
    let e = method_call(1, None, lit(2), Vec::new());
    assert!(resolve(&e).is_none());
    assert!(resolve(&lit(3)).is_none());
}

#[test]
fn finding_accessors() {
    let f = Finding { kind: CallKind::Function, span: Span { lo: 3, hi: 8 } };
    assert_eq!(f.span(), Span { lo: 3, hi: 8 });
    assert_eq!(CallKind::Function.name(), "function");
    assert_eq!(CallKind::Method.name(), "method");
}
