//! Tests of user allow-list entry parsing and of the fixed path table.

use snafu_context_fun_call::{builtin_allowed_paths, builtin_context_paths, parse_user_path};

fn segments(entry: &str) -> Vec<String> {
    parse_user_path(entry).segments
}

#[test]
fn plain_entry_splits_on_double_colon() {
    assert_eq!(segments("mycrate::util::helper"), vec!["mycrate", "util", "helper"]);
}

#[test]
fn whitespace_around_segments_is_stripped() {
    assert_eq!(segments("  mycrate :: util ::\thelper\n"), vec!["mycrate", "util", "helper"]);
}

#[test]
fn inner_whitespace_is_kept() {
    assert_eq!(segments(" a b :: c"), vec!["a b", "c"]);
}

#[test]
fn single_segment_entry() {
    assert_eq!(segments("helper"), vec!["helper"]);
}

#[test]
fn empty_entry_is_one_empty_segment() {
    assert_eq!(segments(""), vec![""]);
}

#[test]
fn trailing_separator_yields_empty_segment() {
    assert_eq!(segments("a::"), vec!["a", ""]);
}

#[test]
fn leading_separator_yields_empty_segment() {
    assert_eq!(segments("::a"), vec!["", "a"]);
}

#[test]
fn separators_scan_left_to_right() {
    assert_eq!(segments("a:::b"), vec!["a", ":b"]);
    assert_eq!(segments(":::"), vec!["", ":"]);
}

#[test]
fn single_colons_are_ordinary_characters() {
    assert_eq!(segments("a:b"), vec!["a:b"]);
}

#[test]
fn builtin_context_table() {
    let table = builtin_context_paths();
    let expected: Vec<Vec<&str>> = vec![
        vec!["snafu", "futures", "try_future", "TryFutureExt", "context"],
        vec!["snafu", "futures", "try_stream", "TryStreamExt", "context"],
        vec!["snafu", "OptionExt", "context"],
        vec!["snafu", "ResultExt", "context"],
    ];
    assert_eq!(table.paths.len(), expected.len());
    for (path, want) in table.paths.iter().zip(expected.iter()) {
        assert_eq!(path.segments, *want);
    }
}

#[test]
fn builtin_allowed_table() {
    let table = builtin_allowed_paths();
    let expected: Vec<Vec<&str>> = vec![
        vec!["alloc", "string", "String", "as_str"],
        vec!["core", "convert", "AsRef", "as_ref"],
    ];
    assert_eq!(table.paths.len(), expected.len());
    for (path, want) in table.paths.iter().zip(expected.iter()) {
        assert_eq!(path.segments, *want);
    }
}

#[test]
fn path_matching_is_exact() {
    let a = parse_user_path("a::b::c");
    let b = parse_user_path("a::b::c");
    let prefix = parse_user_path("a::b");
    let longer = parse_user_path("a::b::c::d");
    let other = parse_user_path("a::b::x");
    assert!(a.matches(&b));
    assert!(!a.matches(&prefix));
    assert!(!prefix.matches(&a));
    assert!(!a.matches(&longer));
    assert!(!a.matches(&other));
}
