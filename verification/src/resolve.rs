//! Call resolution: from a call expression to the fully-qualified path of the
//! definition it invokes, using the oracle answers recorded on the tree.

use vstd::prelude::*;

use crate::ast::{Expr, ExprKind};
use crate::path::{PathSet, QualifiedPath};

verus! {

/// The path a call expression resolves to, if any.
///
/// For either call form, the oracle's answer at the call position is
/// consulted first.  When it has none and the call is a free-function call
/// whose callee is a path expression — as with a qualified trait call written
/// `<T as Trait>::method(...)` — the resolution of that path expression is
/// used instead.  A non-call expression, or a call the oracle knows nothing
/// about, resolves to nothing.
pub open spec fn resolve_spec(e: Expr) -> Option<Seq<Seq<char>>> {
    match e.kind {
        ExprKind::Call { target, callee, args } => match target {
            Some(p) => Some(p@),
            None => match callee.kind {
                ExprKind::PathExpr { res } => match res {
                    Some(p) => Some(p@),
                    None => None,
                },
                _ => None,
            },
        },
        ExprKind::MethodCall { target, receiver, args } => match target {
            Some(p) => Some(p@),
            None => None,
        },
        _ => None,
    }
}

/// True when `e` is a call that resolves to a member of `candidates`.
/// An unresolved call matches nothing.
pub open spec fn resolves_to_one_of(e: Expr, candidates: Seq<Seq<Seq<char>>>) -> bool {
    match resolve_spec(e) {
        Some(p) => candidates.contains(p),
        None => false,
    }
}

/// Resolves a call expression to the definition it invokes.  Examining the
/// same expression repeatedly always yields the same outcome, since the
/// oracle's answers are recorded on the tree.
pub fn resolve(e: &Expr) -> (r: Option<&QualifiedPath>)
    ensures
        match r {
            Some(p) => resolve_spec(*e) == Some(p@),
            None => resolve_spec(*e) is None,
        },
{
    match &e.kind {
        ExprKind::Call { target, callee, args } => match target {
            Some(p) => Some(p),
            None => match &callee.kind {
                ExprKind::PathExpr { res } => match res {
                    Some(p) => Some(p),
                    None => None,
                },
                _ => None,
            },
        },
        ExprKind::MethodCall { target, receiver, args } => match target {
            Some(p) => Some(p),
            None => None,
        },
        _ => None,
    }
}

/// True when `e` is a call that resolves to a member of `candidates`; false
/// for non-calls and for calls the oracle cannot resolve.
pub fn is_any_call_path(e: &Expr, candidates: &PathSet) -> (r: bool)
    ensures
        r == resolves_to_one_of(*e, candidates@),
{
    match resolve(e) {
        Some(p) => candidates.contains_path(p),
        None => false,
    }
}

} // verus!
