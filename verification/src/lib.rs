//! A static-analysis rule that flags eager "context-attachment" calls whose
//! struct-literal argument performs function or method calls in its field
//! expressions.
//!
//! The context-attachment call forms (`ResultExt::context` and friends) only
//! consume their context argument when the underlying operation fails, yet the
//! argument is built unconditionally at the call site.  A call inside one of
//! the argument's fields therefore runs even on success, defeating the lazy
//! variant of the API.  This crate provides the core of the rule: the table of
//! built-in paths, exact path matching, call resolution against a
//! type-resolution oracle, the context-call matcher, the forbidden-call
//! visitor, and the driver that ties them together over an expression tree.

mod ast;
mod config;
mod context_call;
mod driver;
mod forbidden;
mod laws;
mod path;
mod resolve;
mod table;

pub use ast::{CallKind, Expr, ExprKind, FieldBinding, Finding, Span};
pub use config::{
    is_space, parse_user_path, parse_user_paths, spec_split, spec_trimmed, trimmed_range,
    user_path_spec, user_paths_spec,
};
pub use context_call::{
    context_fields_spec, is_context_call_spec, match_context_call, single_call_arg,
};
pub use driver::{Rule, analyze, analyze_spec, check_expr, check_expr_spec};
pub use forbidden::{find_forbidden, forbidden_in_expr, forbidden_in_exprs, forbidden_in_fields};
pub use laws::{
    CallOccurrence, calls_in_expr, calls_in_exprs, calls_in_fields, checks_of, disallowed_calls,
    exprs_in_tree, exprs_in_tree_fields, exprs_in_trees, finding_of,
    lemma_all_calls_allowed_no_findings, lemma_analysis_idempotent,
    lemma_call_free_fields_no_findings, lemma_closure_body_descended,
    lemma_disallowed_call_reported, lemma_driver_checks_each_expression_independently,
    lemma_each_builtin_form_triggers, lemma_no_calls_no_findings,
    lemma_non_context_call_yields_nothing, lemma_one_disallowed_call_one_finding,
    lemma_visitor_reports_exactly_disallowed, occurrence_allowed, reported_findings,
};
pub use path::{PathSet, QualifiedPath};
pub use resolve::{is_any_call_path, resolve, resolve_spec, resolves_to_one_of};
pub use table::{
    as_ref_path, builtin_allowed_paths, builtin_context_paths, option_ext_context_path,
    result_ext_context_path, spec_allowed_paths, spec_context_paths, string_as_str_path,
    try_future_context_path, try_stream_context_path,
};
