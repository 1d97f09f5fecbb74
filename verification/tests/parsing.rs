use btc_ticker::parse::{parse_decimal_i64, parse_decimal_u32, parse_decimal_u64, parse_price};

#[test]
fn price_with_two_decimals() {
    assert_eq!(parse_price("12345.67"), Some(1234567));
}

#[test]
fn price_integer_only() {
    assert_eq!(parse_price("100"), Some(10000));
}

#[test]
fn price_zero() {
    assert_eq!(parse_price("0"), Some(0));
}

#[test]
fn price_single_fraction_digit() {
    assert_eq!(parse_price("0.5"), Some(50));
}

#[test]
fn price_extra_fraction_digits_truncated() {
    assert_eq!(parse_price("12.345"), Some(1234));
    assert_eq!(parse_price("12.349999"), Some(1234));
}

#[test]
fn price_empty_integer_part_rejected() {
    assert_eq!(parse_price(".5"), None);
}

#[test]
fn price_empty_fraction_rejected() {
    assert_eq!(parse_price("1."), None);
}

#[test]
fn price_empty_string_rejected() {
    assert_eq!(parse_price(""), None);
}

#[test]
fn price_non_digit_rejected() {
    assert_eq!(parse_price("abc"), None);
    assert_eq!(parse_price("12a.50"), None);
    assert_eq!(parse_price("-1.00"), None);
    assert_eq!(parse_price("1.2.3"), None);
}

#[test]
fn price_too_large_rejected() {
    // Scaled by one hundred this no longer fits in sixty-four bits.
    assert_eq!(parse_price("18446744073709551615"), None);
    assert_eq!(parse_price("999999999999999999999999999999.00"), None);
}

#[test]
fn price_large_but_fitting() {
    assert_eq!(parse_price("184467440737095516.15"), Some(18446744073709551615));
}

#[test]
fn decimal_u64_plain() {
    assert_eq!(parse_decimal_u64("0"), Some(0));
    assert_eq!(parse_decimal_u64("1700000000"), Some(1700000000));
}

#[test]
fn decimal_u64_max_boundary() {
    assert_eq!(parse_decimal_u64("18446744073709551615"), Some(u64::MAX));
    assert_eq!(parse_decimal_u64("18446744073709551616"), None);
}

#[test]
fn decimal_u64_leading_zeros() {
    assert_eq!(parse_decimal_u64("007"), Some(7));
}

#[test]
fn decimal_u64_rejects_non_digits() {
    assert_eq!(parse_decimal_u64(""), None);
    assert_eq!(parse_decimal_u64("12a"), None);
    assert_eq!(parse_decimal_u64("-5"), None);
    assert_eq!(parse_decimal_u64("+5"), None);
    assert_eq!(parse_decimal_u64("1.0"), None);
}

#[test]
fn decimal_i64_signs() {
    assert_eq!(parse_decimal_i64("0"), Some(0));
    assert_eq!(parse_decimal_i64("-5"), Some(-5));
    assert_eq!(parse_decimal_i64("+7"), Some(7));
    assert_eq!(parse_decimal_i64("1700000000"), Some(1700000000));
}

#[test]
fn decimal_i64_boundaries() {
    assert_eq!(parse_decimal_i64("9223372036854775807"), Some(i64::MAX));
    assert_eq!(parse_decimal_i64("9223372036854775808"), None);
    assert_eq!(parse_decimal_i64("-9223372036854775808"), Some(i64::MIN));
    assert_eq!(parse_decimal_i64("-9223372036854775809"), None);
}

#[test]
fn decimal_i64_rejects_malformed() {
    assert_eq!(parse_decimal_i64(""), None);
    assert_eq!(parse_decimal_i64("-"), None);
    assert_eq!(parse_decimal_i64("+"), None);
    assert_eq!(parse_decimal_i64("--5"), None);
    assert_eq!(parse_decimal_i64("5-"), None);
    assert_eq!(parse_decimal_i64("1.0"), None);
}

#[test]
fn decimal_u32_range() {
    assert_eq!(parse_decimal_u32("850000"), Some(850000));
    assert_eq!(parse_decimal_u32("4294967295"), Some(u32::MAX));
    assert_eq!(parse_decimal_u32("4294967296"), None);
    assert_eq!(parse_decimal_u32("abc"), None);
    assert_eq!(parse_decimal_u32(""), None);
}
