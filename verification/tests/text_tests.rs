use page::decimal::{parse_bounded, u128_to_string, u32_to_string, u64_to_string};
use page::text::{contains_char, contains_text, starts_with, trims_to_empty};

#[test]
fn numbers_are_written_in_decimal() {
    assert_eq!(u32_to_string(0), "0");
    assert_eq!(u32_to_string(7), "7");
    assert_eq!(u64_to_string(1234567890), "1234567890");
    assert_eq!(u128_to_string(u128::MAX), u128::MAX.to_string());
    assert_eq!(u64_to_string(u64::MAX), u64::MAX.to_string());
}

#[test]
fn numbers_are_read_like_std() {
    let max = u64::MAX as u128;
    assert_eq!(parse_bounded("42", max), Some(42));
    assert_eq!(parse_bounded("+42", max), Some(42));
    assert_eq!(parse_bounded("007", max), Some(7));
    assert_eq!(parse_bounded("", max), None);
    assert_eq!(parse_bounded("+", max), None);
    assert_eq!(parse_bounded("-1", max), None);
    assert_eq!(parse_bounded(" 1", max), None);
    assert_eq!(parse_bounded("1a", max), None);
    assert_eq!(parse_bounded("18446744073709551615", max), Some(max));
    assert_eq!(parse_bounded("18446744073709551616", max), None);
    assert_eq!(parse_bounded("256", 255), None);
    assert_eq!(parse_bounded("9", 5), None);
    assert_eq!("18446744073709551616".parse::<u64>().ok(), None);
}

#[test]
fn text_questions() {
    assert!(starts_with("https://x", "https://"));
    assert!(!starts_with("http", "https://"));
    assert!(contains_char("a.b", '.'));
    assert!(!contains_char("ab", ' '));
    assert!(contains_text("xxInsufficientFundsyy", "InsufficientFunds"));
    assert!(contains_text("abc", ""));
    assert!(!contains_text("ab", "abc"));
    assert!(!contains_text("aab", "abb"));
    assert!(trims_to_empty(" \u{3000}\n"));
    assert!(!trims_to_empty(" a "));
}
