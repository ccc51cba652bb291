use lilnouns_click::decimal::{parse_u64, render_u64};

#[test]
fn renders_single_digits() {
    assert_eq!(render_u64(0), "0");
    assert_eq!(render_u64(7), "7");
    assert_eq!(render_u64(9), "9");
}

#[test]
fn renders_several_digits_most_significant_first() {
    assert_eq!(render_u64(10), "10");
    assert_eq!(render_u64(42), "42");
    assert_eq!(render_u64(1_000_000), "1000000");
    assert_eq!(render_u64(4_294_967_295), "4294967295");
    assert_eq!(render_u64(u64::MAX), "18446744073709551615");
}

#[test]
fn parses_plain_numerals() {
    assert_eq!(parse_u64("0"), Some(0));
    assert_eq!(parse_u64("42"), Some(42));
    assert_eq!(parse_u64("18446744073709551615"), Some(u64::MAX));
}

#[test]
fn parses_leading_zeros_and_plus_sign() {
    assert_eq!(parse_u64("007"), Some(7));
    assert_eq!(parse_u64("+5"), Some(5));
    assert_eq!(parse_u64("+0012"), Some(12));
    let long = format!("{}1", "0".repeat(100));
    assert_eq!(parse_u64(&long), Some(1));
}

#[test]
fn refuses_numbers_beyond_64_bits() {
    assert_eq!(parse_u64("18446744073709551616"), None);
    assert_eq!(parse_u64("99999999999999999999"), None);
    assert_eq!(parse_u64("184467440737095516150"), None);
}

#[test]
fn refuses_texts_that_are_no_numerals() {
    assert_eq!(parse_u64(""), None);
    assert_eq!(parse_u64("+"), None);
    assert_eq!(parse_u64("-1"), None);
    assert_eq!(parse_u64("++1"), None);
    assert_eq!(parse_u64("1+"), None);
    assert_eq!(parse_u64("12a"), None);
    assert_eq!(parse_u64("a12"), None);
    assert_eq!(parse_u64("4 2"), None);
    assert_eq!(parse_u64(" 42"), None);
    assert_eq!(parse_u64("1.5"), None);
}

#[test]
fn refuses_digits_outside_ascii() {
    assert_eq!(parse_u64("\u{ff14}\u{ff12}"), None);
    assert_eq!(parse_u64("4\u{0662}"), None);
    assert_eq!(parse_u64("\u{e9}"), None);
}

#[test]
fn parsing_inverts_rendering() {
    for n in [0u64, 1, 9, 10, 11, 99, 100, 12345, u32::MAX as u64, u64::MAX - 1, u64::MAX] {
        assert_eq!(parse_u64(&render_u64(n)), Some(n));
    }
}
