//! Numbers written in decimal digits.

use vstd::prelude::*;

verus! {

/// The decimal digits of `n`, as ASCII bytes: no sign, and no leading zero
/// but for zero itself.
pub open spec fn decimal_bytes(n: nat) -> Seq<u8>
    decreases n,
{
    if n < 10 {
        seq![(48 + n) as u8]
    } else {
        decimal_bytes(n / 10).push((48 + n % 10) as u8)
    }
}

/// Whether every byte is a decimal digit.
pub open spec fn is_digits(bytes: Seq<u8>) -> bool {
    forall|i: int| 0 <= i < bytes.len() ==> 48 <= #[trigger] bytes[i] <= 57
}

/// The number that decimal digits stand for.
pub open spec fn decimal_value(digits: Seq<u8>) -> nat
    decreases digits.len(),
{
    if digits.len() == 0 {
        0
    } else {
        decimal_value(digits.drop_last()) * 10 + (digits.last() - 48) as nat
    }
}

/// The value of digits is at least the value of any of their prefixes.
pub proof fn lemma_value_grows(digits: Seq<u8>, n: int)
    requires
        is_digits(digits),
        0 <= n <= digits.len(),
    ensures
        decimal_value(digits.take(n)) <= decimal_value(digits),
    decreases digits.len() - n,
{
    if n == digits.len() {
        assert(digits.take(n) == digits);
    } else {
        lemma_value_grows(digits, n + 1);
        assert(digits.take(n + 1).drop_last() == digits.take(n));
    }
}

/// A number is read back from its decimal digits: what is written for a
/// period or a count stands for that number and for no other.
pub proof fn law_digits_read_back(n: nat)
    ensures
        decimal_bytes(n).len() > 0,
        is_digits(decimal_bytes(n)),
        decimal_value(decimal_bytes(n)) == n,
    decreases n,
{
    if n < 10 {
        let digits = decimal_bytes(n);
        assert(digits.drop_last().len() == 0);
        assert(decimal_value(digits.drop_last()) == 0);
    } else {
        law_digits_read_back(n / 10);
        let digits = decimal_bytes(n);
        assert(digits.drop_last() == decimal_bytes(n / 10));
        assert(digits.last() == (48 + n % 10) as u8);
    }
}

} // verus!
