use limitation::period::{parse_period, ParsePeriodError};

#[test]
fn period_is_read_as_decimal_seconds() {
    assert_eq!(parse_period("3600"), Ok(3600));
    assert_eq!(parse_period("10"), Ok(10));
    assert_eq!(parse_period("0"), Ok(0));
    assert_eq!(parse_period("007"), Ok(7));
}

#[test]
fn period_may_carry_a_plus_sign() {
    assert_eq!(parse_period("+5"), Ok(5));
}

#[test]
fn period_of_no_text_is_empty() {
    assert_eq!(parse_period(""), Err(ParsePeriodError::Empty));
}

#[test]
fn period_of_a_lone_sign_is_no_digit() {
    assert_eq!(parse_period("+"), Err(ParsePeriodError::InvalidDigit));
    assert_eq!(parse_period("-"), Err(ParsePeriodError::InvalidDigit));
}

#[test]
fn period_refuses_what_is_no_decimal_digit() {
    assert_eq!(parse_period("12a"), Err(ParsePeriodError::InvalidDigit));
    assert_eq!(parse_period("ff"), Err(ParsePeriodError::InvalidDigit));
    assert_eq!(parse_period("0x10"), Err(ParsePeriodError::InvalidDigit));
    assert_eq!(parse_period("-5"), Err(ParsePeriodError::InvalidDigit));
    assert_eq!(parse_period(" 5"), Err(ParsePeriodError::InvalidDigit));
    assert_eq!(parse_period("5 "), Err(ParsePeriodError::InvalidDigit));
    assert_eq!(parse_period("1_000"), Err(ParsePeriodError::InvalidDigit));
    assert_eq!(parse_period("++5"), Err(ParsePeriodError::InvalidDigit));
    assert_eq!(parse_period("٣"), Err(ParsePeriodError::InvalidDigit));
}

#[test]
fn period_takes_the_largest_number_of_64_bits() {
    assert_eq!(parse_period("18446744073709551615"), Ok(u64::MAX));
}

#[test]
fn period_refuses_a_number_that_is_too_large() {
    assert_eq!(parse_period("18446744073709551616"), Err(ParsePeriodError::Overflow));
    assert_eq!(parse_period("99999999999999999999999"), Err(ParsePeriodError::Overflow));
}

#[test]
fn period_with_a_bad_digit_after_too_many_digits_is_no_digit() {
    assert_eq!(parse_period("99999999999999999999999x"), Err(ParsePeriodError::InvalidDigit));
}

#[test]
fn period_is_read_back_from_its_digits() {
    for secs in [0u64, 1, 9, 10, 99, 100, 3600, 86_400, u64::MAX - 1, u64::MAX] {
        assert_eq!(parse_period(secs.to_string().as_str()), Ok(secs));
    }
}
