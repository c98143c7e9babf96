//! The context-call matcher: recognises a call whose sole argument is a
//! struct literal and whose resolved path is one of the configured
//! context-attachment paths, and yields that literal's fields.

use vstd::prelude::*;

use crate::ast::{Expr, ExprKind, FieldBinding};
use crate::path::PathSet;
use crate::resolve::{is_any_call_path, resolves_to_one_of};

verus! {

/// The sole argument of `e`, when `e` is a free-function call with exactly
/// one argument or a method call with exactly one explicit argument.
pub open spec fn single_call_arg(e: Expr) -> Option<Expr> {
    match e.kind {
        ExprKind::Call { target, callee, args } => if args@.len() == 1 {
            Some(args@[0])
        } else {
            None
        },
        ExprKind::MethodCall { target, receiver, args } => if args@.len() == 1 {
            Some(args@[0])
        } else {
            None
        },
        _ => None,
    }
}

/// True when `e` is a context-attachment call: a call with a sole argument,
/// that argument is a struct literal, and `e` resolves to a member of
/// `context_like`.  A call that does not resolve, or resolves elsewhere —
/// such as a `context`-named method of an unrelated type — never qualifies.
pub open spec fn is_context_call_spec(e: Expr, context_like: Seq<Seq<Seq<char>>>) -> bool {
    &&& single_call_arg(e) matches Some(arg)
    &&& arg.kind is StructLit
    &&& resolves_to_one_of(e, context_like)
}

/// The field bindings of the struct-literal argument of a context-attachment
/// call, in declaration order.  A base (functional-update) expression of the
/// literal, if present, is not among them.  Meaningful only when
/// `is_context_call_spec` holds.
pub open spec fn context_fields_spec(e: Expr) -> Seq<FieldBinding> {
    match single_call_arg(e) {
        Some(arg) => match arg.kind {
            ExprKind::StructLit { fields, base } => fields@,
            _ => Seq::empty(),
        },
        None => Seq::empty(),
    }
}

/// Matches `e` against the context-attachment forms.  On a match, returns the
/// struct-literal argument's fields in declaration order; otherwise returns
/// nothing, and the caller moves on — a non-match is not an error.
pub fn match_context_call<'a>(e: &'a Expr, context_like: &PathSet) -> (r: Option<
    &'a Vec<FieldBinding>,
>)
    ensures
        match r {
            Some(fields) => is_context_call_spec(*e, context_like@) && fields@
                == context_fields_spec(*e),
            None => !is_context_call_spec(*e, context_like@),
        },
{
    let args = match &e.kind {
        ExprKind::Call { target, callee, args } => args,
        ExprKind::MethodCall { target, receiver, args } => args,
        _ => { return None },
    };
    if args.len() != 1 {
        return None;
    }
    let fields = match &args[0].kind {
        ExprKind::StructLit { fields, base } => fields,
        _ => { return None },
    };
    if !is_any_call_path(e, context_like) {
        return None;
    }
    Some(fields)
}

} // verus!
