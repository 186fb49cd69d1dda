use submitflow::text::{str_eq, strip_prefix_str, trim_str};

#[test]
fn trim_removes_both_ends() {
    assert_eq!(trim_str("  hello world \n"), "hello world");
}

#[test]
fn trim_keeps_inner_whitespace() {
    assert_eq!(trim_str("\ta b\tc\n"), "a b\tc");
}

#[test]
fn trim_of_whitespace_only_is_empty() {
    assert_eq!(trim_str(" \t\r\n"), "");
}

#[test]
fn trim_of_empty_is_empty() {
    assert_eq!(trim_str(""), "");
}

#[test]
fn trim_without_whitespace_is_identity() {
    assert_eq!(trim_str("main"), "main");
}

#[test]
fn trim_handles_unicode_whitespace() {
    assert_eq!(trim_str("\u{00A0}x\u{3000}"), "x");
}

#[test]
fn strip_prefix_removes_one_occurrence() {
    assert_eq!(strip_prefix_str("origin/main", "origin/"), "main");
}

#[test]
fn strip_prefix_removes_exactly_one_occurrence() {
    assert_eq!(strip_prefix_str("origin/origin/main", "origin/"), "origin/main");
}

#[test]
fn strip_prefix_without_match_is_identity() {
    assert_eq!(strip_prefix_str("main", "origin/"), "main");
}

#[test]
fn strip_prefix_not_at_front_is_identity() {
    assert_eq!(strip_prefix_str("x/origin/main", "origin/"), "x/origin/main");
}

#[test]
fn strip_prefix_longer_than_string_is_identity() {
    assert_eq!(strip_prefix_str("or", "origin/"), "or");
}

#[test]
fn str_eq_on_equal_strings() {
    assert!(str_eq("feature", "feature"));
}

#[test]
fn str_eq_on_different_strings() {
    assert!(!str_eq("feature", "main"));
    assert!(!str_eq("main", "mainline"));
}
