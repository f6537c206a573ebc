use rss_reader::text::{
    contains_str, i64_to_decimal, join, str_eq, to_hex_lower, trim, u64_to_decimal,
};

#[test]
fn trim_removes_unicode_white_space_at_both_ends() {
    assert_eq!(trim(" \t hi there \n"), "hi there");
    assert_eq!(trim("\u{3000}x\u{a0}"), "x");
    assert_eq!(trim("   "), "");
    assert_eq!(trim(""), "");
    assert_eq!(trim("a b"), "a b");
}

#[test]
fn trim_matches_std_trim() {
    for s in ["\u{85}a\u{2029}", "\u{200b}a", "\u{1680} z \u{205f}", "\r\nq\x0b"] {
        assert_eq!(trim(s), s.trim());
    }
}

#[test]
fn contains_finds_substrings() {
    assert!(contains_str("hello", "ell"));
    assert!(contains_str("hello", "hello"));
    assert!(contains_str("hello", ""));
    assert!(contains_str("", ""));
    assert!(!contains_str("hello", "hellos"));
    assert!(!contains_str("abc", "abd"));
    assert!(contains_str("aaab", "aab"));
}

#[test]
fn join_puts_separator_between_items() {
    let v = vec!["a".to_string(), "b".to_string(), "c".to_string()];
    assert_eq!(join(&v, "; "), "a; b; c");
    assert_eq!(join(&vec!["x".to_string()], "; "), "x");
    assert_eq!(join(&Vec::new(), "; "), "");
}

#[test]
fn decimal_rendering_matches_display() {
    for i in [0i64, 7, -1, 10, -42, 1234567890, i64::MAX, i64::MIN] {
        assert_eq!(i64_to_decimal(i), i.to_string());
    }
    assert_eq!(u64_to_decimal(u64::MAX), u64::MAX.to_string());
}

#[test]
fn hex_is_two_lower_case_digits_per_byte() {
    assert_eq!(to_hex_lower(&vec![0x00, 0xab, 0x0f, 0xff]), "00ab0fff");
    assert_eq!(to_hex_lower(&Vec::new()), "");
}

#[test]
fn string_equality() {
    assert!(str_eq("abc", "abc"));
    assert!(!str_eq("abc", "abC"));
}
