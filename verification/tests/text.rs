use openpresenter::numbers::{decimal_string, parse_u16, parse_u32, parse_u64};
use openpresenter::text::{is_blank, non_empty, trimmed, truncate, unless_blank};

#[test]
fn truncate_cuts_with_ellipsis() {
    assert_eq!(truncate("hello world", 5), "hello\u{2026}");
    assert_eq!(truncate("hello", 5), "hello");
    assert_eq!(truncate("", 0), "");
    assert_eq!(truncate("ab", 0), "\u{2026}");
    // counts characters, not bytes
    assert_eq!(truncate("héllo wörld", 7), "héllo w\u{2026}");
}

#[test]
fn trimming_follows_unicode_whitespace() {
    assert_eq!(trimmed("  a b \t\n"), "a b");
    assert_eq!(trimmed("\u{3000}x\u{a0}"), "x");
    assert_eq!(trimmed("   "), "");
    assert!(is_blank(" \u{2003} "));
    assert!(!is_blank(" . "));
}

#[test]
fn non_empty_trims_or_gives_none() {
    assert_eq!(non_empty("  Hillsong "), Some("Hillsong".to_string()));
    assert_eq!(non_empty("   "), None);
    assert_eq!(non_empty(""), None);
}

#[test]
fn unless_blank_keeps_text_untrimmed() {
    assert_eq!(unless_blank(" Chorus ".to_string()), Some(" Chorus ".to_string()));
    assert_eq!(unless_blank("  ".to_string()), None);
}

#[test]
fn decimal_spelling() {
    assert_eq!(decimal_string(0), "0");
    assert_eq!(decimal_string(7), "7");
    assert_eq!(decimal_string(500), "500");
    assert_eq!(decimal_string(u64::MAX), u64::MAX.to_string());
}

#[test]
fn parsing_matches_from_str() {
    for s in ["80", "+80", "65535", "65536", "", "+", "-1", " 80", "8a", "007", "-0", "++1"] {
        assert_eq!(parse_u16(s), s.parse::<u16>().ok(), "input {s:?}");
        assert_eq!(parse_u32(s), s.parse::<u32>().ok(), "input {s:?}");
        assert_eq!(parse_u64(s), s.parse::<u64>().ok(), "input {s:?}");
    }
    assert_eq!(parse_u64("18446744073709551615"), Some(u64::MAX));
    assert_eq!(parse_u64("18446744073709551616"), None);
    assert_eq!(parse_u32("4294967296"), None);
}
