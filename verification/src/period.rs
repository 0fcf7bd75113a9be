//! The length of a period as it is written on the command line.

use crate::decimal::{decimal_value, is_digits, lemma_value_grows};
use vstd::prelude::*;
use vstd::utf8::encode_utf8;

verus! {

/// Why a text is no period.
#[derive(Clone, Copy, Debug, PartialEq, Eq, Structural)]
pub enum ParsePeriodError {
    /// The text is empty.
    Empty,
    /// The text holds something else than decimal digits after an optional
    /// plus sign, or no digit at all.
    InvalidDigit,
    /// The number is too large for 64 bits.
    Overflow,
}

/// The digits of a text: what follows the plus sign, if it starts with one.
pub open spec fn digits_of(bytes: Seq<u8>) -> Seq<u8> {
    if bytes.len() > 0 && bytes[0] == 43 {
        bytes.drop_first()
    } else {
        bytes
    }
}

/// The period, in seconds, that a text stands for: a decimal number of
/// seconds, with an optional plus sign in front.
pub open spec fn period_of(bytes: Seq<u8>) -> Result<u64, ParsePeriodError> {
    let digits = digits_of(bytes);
    if bytes.len() == 0 {
        Err(ParsePeriodError::Empty)
    } else if digits.len() == 0 || !is_digits(digits) {
        Err(ParsePeriodError::InvalidDigit)
    } else if decimal_value(digits) > u64::MAX {
        Err(ParsePeriodError::Overflow)
    } else {
        Ok(decimal_value(digits) as u64)
    }
}

/// Custom parser that takes a number of seconds as a `str` and returns the
/// length of a period in seconds.
///
/// # Errors
///
/// Returns an `Err` if the `str` does not parse as an unsigned decimal integer
/// of 64 bits.
#[verifier::loop_isolation(false)]
pub fn parse_period(src: &str) -> (period: Result<u64, ParsePeriodError>)
    ensures
        period == period_of(encode_utf8(src@)),
{
    let bytes = src.as_bytes();
    if bytes.len() == 0 {
        return Err(ParsePeriodError::Empty);
    }
    let start: usize = if bytes[0] == 43 {
        1
    } else {
        0
    };
    let ghost digits = digits_of(bytes@);
    assert(digits == bytes@.skip(start as int));
    if start == bytes.len() {
        return Err(ParsePeriodError::InvalidDigit);
    }
    let mut i: usize = start;
    while i < bytes.len()
        invariant
            start <= i <= bytes.len(),
            digits == bytes@.skip(start as int),
            is_digits(digits.take(i - start)),
        decreases bytes.len() - i,
    {
        if bytes[i] < 48 || bytes[i] > 57 {
            assert(digits[i - start] == bytes@[i as int]);
            return Err(ParsePeriodError::InvalidDigit);
        }
        assert(digits.take(i + 1 - start) == digits.take(i - start).push(bytes@[i as int]));
        i = i + 1;
    }
    assert(digits.take(i - start) == digits);
    let mut value: u64 = 0;
    let mut i: usize = start;
    while i < bytes.len()
        invariant
            start <= i <= bytes.len(),
            digits == bytes@.skip(start as int),
            is_digits(digits),
            value == decimal_value(digits.take(i - start)),
        decreases bytes.len() - i,
    {
        assert(digits[i - start] == bytes@[i as int]);
        let digit: u64 = (bytes[i] - 48) as u64;
        proof {
            assert(digits.take(i + 1 - start).drop_last() == digits.take(i - start));
            assert(digits.take(i + 1 - start).last() == bytes@[i as int]);
            lemma_value_grows(digits, i + 1 - start);
        }
        let next = match value.checked_mul(10) {
            Some(tens) => tens.checked_add(digit),
            None => None,
        };
        match next {
            Some(next) => {
                value = next;
            },
            None => {
                return Err(ParsePeriodError::Overflow);
            },
        }
        i = i + 1;
    }
    assert(digits.take(i - start) == digits);
    Ok(value)
}

} // verus!
