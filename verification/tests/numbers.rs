use vk_relay::num::{i64_to_dec, parse_dec_i64, u64_to_dec};

#[test]
fn parses_plain_digits() {
    assert_eq!(parse_dec_i64("0"), Some(0));
    assert_eq!(parse_dec_i64("7"), Some(7));
    assert_eq!(parse_dec_i64("1700000001"), Some(1700000001));
}

#[test]
fn parses_leading_zeros() {
    assert_eq!(parse_dec_i64("007"), Some(7));
    assert_eq!(parse_dec_i64("000"), Some(0));
}

#[test]
fn parses_negative_values() {
    assert_eq!(parse_dec_i64("-12"), Some(-12));
    assert_eq!(parse_dec_i64("-0"), Some(0));
}

#[test]
fn parses_the_extremes() {
    assert_eq!(parse_dec_i64("9223372036854775807"), Some(i64::MAX));
    assert_eq!(parse_dec_i64("-9223372036854775808"), Some(i64::MIN));
}

#[test]
fn rejects_out_of_range_values() {
    assert_eq!(parse_dec_i64("9223372036854775808"), None);
    assert_eq!(parse_dec_i64("-9223372036854775809"), None);
    assert_eq!(parse_dec_i64("99999999999999999999999999"), None);
}

#[test]
fn rejects_malformed_text() {
    assert_eq!(parse_dec_i64(""), None);
    assert_eq!(parse_dec_i64("-"), None);
    assert_eq!(parse_dec_i64("1a"), None);
    assert_eq!(parse_dec_i64(" 1"), None);
    assert_eq!(parse_dec_i64("1.5"), None);
    assert_eq!(parse_dec_i64("--3"), None);
}

#[test]
fn renders_unsigned_decimals() {
    assert_eq!(u64_to_dec(0), "0");
    assert_eq!(u64_to_dec(7), "7");
    assert_eq!(u64_to_dec(10), "10");
    assert_eq!(u64_to_dec(1234567890), "1234567890");
    assert_eq!(u64_to_dec(u64::MAX), "18446744073709551615");
}

#[test]
fn renders_signed_decimals() {
    assert_eq!(i64_to_dec(0), "0");
    assert_eq!(i64_to_dec(-1), "-1");
    assert_eq!(i64_to_dec(42), "42");
    assert_eq!(i64_to_dec(i64::MIN), "-9223372036854775808");
    assert_eq!(i64_to_dec(i64::MAX), "9223372036854775807");
}

#[test]
fn printing_then_parsing_returns_the_value() {
    for v in [0i64, 1, -1, 25, -9000, i64::MAX, i64::MIN] {
        assert_eq!(parse_dec_i64(&i64_to_dec(v)), Some(v));
    }
}
