use otel_trace::text::{decimal_string, starts_with};

#[test]
fn decimal_string_writes_numerals() {
    assert_eq!(decimal_string(0), "0");
    assert_eq!(decimal_string(7), "7");
    assert_eq!(decimal_string(10), "10");
    assert_eq!(decimal_string(4096), "4096");
    assert_eq!(decimal_string(u32::MAX), "4294967295");
}

#[test]
fn starts_with_compares_characters() {
    assert!(starts_with("", ""));
    assert!(starts_with("abc", ""));
    assert!(starts_with("abc", "abc"));
    assert!(starts_with("héllo", "hé"));
    assert!(!starts_with("hello", "hé"));
    assert!(!starts_with("ab", "abc"));
    assert!(!starts_with("xabc", "abc"));
}
