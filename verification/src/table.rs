//! The fixed path table: the built-in context-attachment call forms and the
//! built-in allowed calls.  These are constants of the rule; only the
//! allow-list can be extended by user configuration.

use vstd::prelude::*;

use crate::path::{PathSet, QualifiedPath};

verus! {

/// The deferred single-future extension-trait method.
pub open spec fn try_future_context_path() -> Seq<Seq<char>> {
    seq!["snafu"@, "futures"@, "try_future"@, "TryFutureExt"@, "context"@]
}

/// The deferred stream extension-trait method.
pub open spec fn try_stream_context_path() -> Seq<Seq<char>> {
    seq!["snafu"@, "futures"@, "try_stream"@, "TryStreamExt"@, "context"@]
}

/// The Option-extension trait method.
pub open spec fn option_ext_context_path() -> Seq<Seq<char>> {
    seq!["snafu"@, "OptionExt"@, "context"@]
}

/// The Result-extension trait method.
pub open spec fn result_ext_context_path() -> Seq<Seq<char>> {
    seq!["snafu"@, "ResultExt"@, "context"@]
}

/// The string type's borrowing-conversion method, allowed in field
/// expressions.
pub open spec fn string_as_str_path() -> Seq<Seq<char>> {
    seq!["alloc"@, "string"@, "String"@, "as_str"@]
}

/// The generic reference-conversion trait's method, allowed in field
/// expressions.
pub open spec fn as_ref_path() -> Seq<Seq<char>> {
    seq!["core"@, "convert"@, "AsRef"@, "as_ref"@]
}

/// The four built-in context-attachment forms, in their fixed order.
pub open spec fn spec_context_paths() -> Seq<Seq<Seq<char>>> {
    seq![
        try_future_context_path(),
        try_stream_context_path(),
        option_ext_context_path(),
        result_ext_context_path(),
    ]
}

/// The two built-in allowed calls, in their fixed order.
pub open spec fn spec_allowed_paths() -> Seq<Seq<Seq<char>>> {
    seq![string_as_str_path(), as_ref_path()]
}

/// Appends one segment to a path under construction.
fn push_segment(segments: &mut Vec<String>, s: &str)
    ensures
        final(segments)@.len() == old(segments)@.len() + 1,
        forall|j: int| 0 <= j < old(segments)@.len() ==> final(segments)@[j] == old(segments)@[j],
        final(segments)@[old(segments)@.len() as int]@ == s@,
{
    segments.push(s.to_owned());
}

/// Builds the fixed set of context-attachment forms.
pub fn builtin_context_paths() -> (r: PathSet)
    ensures
        r@ == spec_context_paths(),
{
    let mut paths: Vec<QualifiedPath> = Vec::new();

    let mut segments: Vec<String> = Vec::new();
    push_segment(&mut segments, "snafu");
    push_segment(&mut segments, "futures");
    push_segment(&mut segments, "try_future");
    push_segment(&mut segments, "TryFutureExt");
    push_segment(&mut segments, "context");
    let p = QualifiedPath { segments };
    assert(p@ =~= try_future_context_path());
    paths.push(p);

    let mut segments: Vec<String> = Vec::new();
    push_segment(&mut segments, "snafu");
    push_segment(&mut segments, "futures");
    push_segment(&mut segments, "try_stream");
    push_segment(&mut segments, "TryStreamExt");
    push_segment(&mut segments, "context");
    let p = QualifiedPath { segments };
    assert(p@ =~= try_stream_context_path());
    paths.push(p);

    let mut segments: Vec<String> = Vec::new();
    push_segment(&mut segments, "snafu");
    push_segment(&mut segments, "OptionExt");
    push_segment(&mut segments, "context");
    let p = QualifiedPath { segments };
    assert(p@ =~= option_ext_context_path());
    paths.push(p);

    let mut segments: Vec<String> = Vec::new();
    push_segment(&mut segments, "snafu");
    push_segment(&mut segments, "ResultExt");
    push_segment(&mut segments, "context");
    let p = QualifiedPath { segments };
    assert(p@ =~= result_ext_context_path());
    paths.push(p);

    let r = PathSet { paths };
    assert(r@ =~= spec_context_paths());
    r
}

/// Builds the fixed set of built-in allowed calls.
pub fn builtin_allowed_paths() -> (r: PathSet)
    ensures
        r@ == spec_allowed_paths(),
{
    let mut paths: Vec<QualifiedPath> = Vec::new();

    let mut segments: Vec<String> = Vec::new();
    push_segment(&mut segments, "alloc");
    push_segment(&mut segments, "string");
    push_segment(&mut segments, "String");
    push_segment(&mut segments, "as_str");
    let p = QualifiedPath { segments };
    assert(p@ =~= string_as_str_path());
    paths.push(p);

    let mut segments: Vec<String> = Vec::new();
    push_segment(&mut segments, "core");
    push_segment(&mut segments, "convert");
    push_segment(&mut segments, "AsRef");
    push_segment(&mut segments, "as_ref");
    let p = QualifiedPath { segments };
    assert(p@ =~= as_ref_path());
    paths.push(p);

    let r = PathSet { paths };
    assert(r@ =~= spec_allowed_paths());
    r
}

} // verus!
