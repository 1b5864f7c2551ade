use canvas_syncer::text::{
    append_decimal, append_signed_decimal, contains_text, ends_with_text, same_text,
    starts_with_text, trim_end_repeats, trim_start_repeats, trim_text,
};

#[test]
fn trimming_uses_unicode_white_space() {
    assert_eq!(trim_text("  a b \t\n"), "a b");
    assert_eq!(trim_text("\u{3000}x\u{a0}\u{2028}"), "x");
    assert_eq!(trim_text("   "), "");
    assert_eq!(trim_text(""), "");
}

#[test]
fn prefixes_suffixes_and_infixes() {
    assert!(starts_with_text(">=5", ">="));
    assert!(!starts_with_text(">", ">="));
    assert!(ends_with_text("10MB", "MB"));
    assert!(!ends_with_text("B", "MB"));
    assert!(contains_text("<x>; rel=\"next\"", "rel=\"next\""));
    assert!(!contains_text("rel=\"last\"", "rel=\"next\""));
    assert!(contains_text("abc", ""));
    assert!(same_text("abc", "abc"));
    assert!(!same_text("abc", "abd"));
}

#[test]
fn repeated_patterns_are_cut() {
    assert_eq!(trim_end_repeats("5MBMB", "MB"), "5");
    assert_eq!(trim_end_repeats("5mbMB", "MB"), "5mb");
    assert_eq!(trim_start_repeats(">=>=7", ">="), "7");
    assert_eq!(trim_start_repeats("x", ">"), "x");
}

#[test]
fn decimals() {
    assert_eq!(append_decimal(String::new(), 0), "0");
    assert_eq!(append_decimal("p".to_string(), 1234567890), "p1234567890");
    assert_eq!(append_decimal(String::new(), u64::MAX), u64::MAX.to_string());
    assert_eq!(append_signed_decimal(String::new(), -42), "-42");
    assert_eq!(append_signed_decimal(String::new(), i64::MIN), i64::MIN.to_string());
    assert_eq!(append_signed_decimal(String::new(), 17), "17");
}
