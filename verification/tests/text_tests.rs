use interprep::text::{
    ascii_lowercase_str, decimal_string, find_str, is_blank_str, owned, replace_str, split_str,
    starts_with, strip_prefix, take_chars, trimmed, trimmed_end, trimmed_start, utf8_len_below,
};

#[test]
fn trims_unicode_whitespace_at_both_ends() {
    assert_eq!(trimmed("\u{3000} \thello world\n\u{a0}"), "hello world");
    assert_eq!(trimmed_start("  a b  "), "a b  ");
    assert_eq!(trimmed_end("  a b  "), "  a b");
    assert_eq!(trimmed("   "), "");
}

#[test]
fn trimming_twice_is_trimming_once() {
    for s in ["  x  ", "\n\ty\r\n", "", "   ", "a  b"] {
        let once = trimmed(s);
        assert_eq!(trimmed(&once), once);
    }
}

#[test]
fn blank_means_only_whitespace() {
    assert!(is_blank_str(" \t\n"));
    assert!(is_blank_str(""));
    assert!(!is_blank_str(" x "));
}

#[test]
fn split_matches_std() {
    for (s, p) in [("a</w:p>b</w:p>", "</w:p>"), ("no pattern", "**"), ("**a**", "**"), ("", ","), ("a,,b", ",")] {
        let ours = split_str(s, p);
        let std: Vec<String> = s.split(p).map(|x| x.to_owned()).collect();
        assert_eq!(ours, std);
    }
}

#[test]
fn replace_matches_std() {
    for (s, p, r) in [("&amp;&amp;", "&amp;", "&"), ("aaa", "aa", "b"), ("x", "y", "z")] {
        assert_eq!(replace_str(s, p, r), s.replace(p, r));
    }
}

#[test]
fn find_and_prefixes() {
    assert_eq!(find_str("1. item", ". "), Some(1));
    assert_eq!(find_str("abc", "d"), None);
    assert!(starts_with("data: x", "data: "));
    assert_eq!(strip_prefix("data: {}", "data: "), Some("{}".to_owned()));
    assert_eq!(strip_prefix("event: x", "data: "), None);
}

#[test]
fn decimal_matches_to_string() {
    for n in [0u64, 7, 10, 65535, 8765, u64::MAX] {
        assert_eq!(decimal_string(n), n.to_string());
    }
}

#[test]
fn utf8_length_threshold() {
    assert!(utf8_len_below("short", 30));
    assert!(!utf8_len_below(&"x".repeat(30), 30));
    // Each "é" is two bytes in UTF-8: 15 of them reach 30 bytes.
    assert!(!utf8_len_below(&"é".repeat(15), 30));
    assert!(utf8_len_below(&"é".repeat(14), 30));
    assert!(!utf8_len_below("", 0));
}

#[test]
fn take_and_lowercase() {
    assert_eq!(take_chars("héllo", 2), "hé");
    assert_eq!(take_chars("hi", 10), "hi");
    assert_eq!(ascii_lowercase_str("DocX"), "docx");
    assert_eq!(owned("x"), "x");
}
