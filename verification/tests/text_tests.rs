//! The verified string utilities.

use shortlink::text::str_contains_char;
use shortlink::text::str_eq;
use shortlink::text::str_starts_with;
use shortlink::text::trim_trailing_slashes;

#[test]
fn str_eq_agrees_with_equality() {
    assert!(str_eq("", ""));
    assert!(str_eq("abc", "abc"));
    assert!(!str_eq("abc", "abd"));
    assert!(!str_eq("abc", "ab"));
    assert!(str_eq("\u{2603}", "\u{2603}"));
}

#[test]
fn str_starts_with_checks_prefixes() {
    assert!(str_starts_with("/api/urls/x", "/api/urls/"));
    assert!(str_starts_with("abc", ""));
    assert!(!str_starts_with("ab", "abc"));
    assert!(!str_starts_with("/api/urls", "/api/urls/"));
}

#[test]
fn str_contains_char_finds_characters() {
    assert!(str_contains_char("a/b", '/'));
    assert!(!str_contains_char("ab", '/'));
    assert!(!str_contains_char("", 'x'));
}

#[test]
fn trimming_removes_only_trailing_slashes() {
    assert_eq!(trim_trailing_slashes("/a/b/"), "/a/b");
    assert_eq!(trim_trailing_slashes("/a//"), "/a");
    assert_eq!(trim_trailing_slashes("//"), "/");
    assert_eq!(trim_trailing_slashes(""), "");
    assert_eq!(trim_trailing_slashes("/a/b"), "/a/b");
}
