use ohos_ability::text::{
    char_is_white_space, decimal_string, same_text, signed_decimal_string, starts_with,
    trims_to_empty,
};

#[test]
fn decimal_rendering() {
    assert_eq!(decimal_string(0), "0");
    assert_eq!(decimal_string(1300002), "1300002");
    assert_eq!(decimal_string(u64::MAX), u64::MAX.to_string());
    assert_eq!(signed_decimal_string(-1), "-1");
    assert_eq!(signed_decimal_string(i64::MIN), i64::MIN.to_string());
    assert_eq!(signed_decimal_string(i64::MAX), i64::MAX.to_string());
}

#[test]
fn white_space_matches_std() {
    for c in ['\u{0}', 'a', ' ', '\t', '\n', '\u{85}', '\u{a0}', '\u{1680}', '\u{2000}', '\u{200a}', '\u{200b}', '\u{2028}', '\u{202f}', '\u{205f}', '\u{3000}', '\u{feff}'] {
        assert_eq!(char_is_white_space(c), c.is_whitespace(), "{:?}", c);
    }
}

#[test]
fn trimming_to_empty() {
    assert!(trims_to_empty(""));
    assert!(trims_to_empty(" \n\t\u{3000}"));
    assert!(!trims_to_empty(" x "));
}

#[test]
fn prefixes_and_equality() {
    assert!(starts_with("abc", ""));
    assert!(starts_with("abc", "ab"));
    assert!(!starts_with("ab", "abc"));
    assert!(same_text("é", "é"));
    assert!(!same_text("a", "b"));
}
