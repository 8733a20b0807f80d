use client_decision_receipt::text::{
    chars_of, contains, decimal_string, ends_with, same_text, starts_with, to_ascii_upper, trim,
    white_space,
};

#[test]
fn white_space_matches_std() {
    for code in 0u32..0x3100 {
        if let Some(c) = char::from_u32(code) {
            assert_eq!(white_space(c), c.is_whitespace(), "{code:#x}");
        }
    }
}

#[test]
fn trim_matches_std() {
    for s in ["", " ", "  a  ", "\u{3000}\tb c\u{2028}\n", "x", "\u{85}\u{a0}", "é é "] {
        assert_eq!(trim(s), s.trim(), "{s:?}");
    }
}

#[test]
fn search_helpers_match_std() {
    let cases = [("", ""), ("abc", ""), ("abc", "b"), ("abc", "abcd"), ("database is busy now", "database is busy"), ("aab", "ab")];
    for (s, p) in cases {
        assert_eq!(contains(s, p), s.contains(p), "{s:?} {p:?}");
        assert_eq!(starts_with(s, p), s.starts_with(p), "{s:?} {p:?}");
        assert_eq!(ends_with(s, p), s.ends_with(p), "{s:?} {p:?}");
    }
}

#[test]
fn decimal_matches_to_string() {
    for n in [0i64, 7, 10, 99, 100, -1, -10, 123456789, i64::MAX, i64::MIN] {
        assert_eq!(decimal_string(n), n.to_string());
    }
}

#[test]
fn small_helpers() {
    assert_eq!(to_ascii_upper("ab-_1é"), "AB-_1é");
    assert!(same_text("abc", "abc"));
    assert!(!same_text("abc", "abd"));
    assert!(!same_text("ab", "abc"));
    assert_eq!(chars_of("héllo"), vec!['h', 'é', 'l', 'l', 'o']);
}
