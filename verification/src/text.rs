//! Decimal numbers as text.

use vstd::prelude::*;

verus! {

/// The ASCII digit of `d`.
pub open spec fn digit(d: nat) -> u8 {
    (48 + d) as u8
}

/// Whether `b` is an ASCII digit.
pub open spec fn is_digit(b: u8) -> bool {
    48 <= b <= 57
}

/// The decimal digits of `x`, without leading zeros.
pub open spec fn decimal(x: nat) -> Seq<u8>
    decreases x,
{
    if x < 10 {
        seq![digit(x)]
    } else {
        decimal(x / 10).push(digit(x % 10))
    }
}

/// The number that a sequence of digits stands for.
pub open spec fn number(digits: Seq<u8>) -> nat
    decreases digits.len(),
{
    if digits.len() == 0 {
        0
    } else {
        10 * number(digits.drop_last()) + (digits.last() - 48) as nat
    }
}

/// Whether all of `bytes` are ASCII digits.
pub open spec fn all_digits(bytes: Seq<u8>) -> bool {
    forall|i: int| 0 <= i < bytes.len() ==> is_digit(#[trigger] bytes[i])
}

/// Reading back the decimal digits of a number gives the number.
pub proof fn number_of_decimal(x: nat)
    ensures
        number(decimal(x)) == x,
        all_digits(decimal(x)),
        decimal(x).len() > 0,
    decreases x,
{
    reveal_with_fuel(number, 2);
    if x >= 10 {
        number_of_decimal(x / 10);
        assert(decimal(x).drop_last() =~= decimal(x / 10));
    }
}

/// A number is not written with leading zeros.
pub proof fn decimal_has_no_leading_zero(x: nat)
    ensures
        decimal(x)[0] == 48 <==> x == 0,
        x < 10 <==> decimal(x).len() == 1,
    decreases x,
{
    if x >= 10 {
        decimal_has_no_leading_zero(x / 10);
        number_of_decimal(x / 10);
    }
}

/// Numbers are written in base ten, with the digits `0` to `9`, the last one for the ones.
pub proof fn digits_are_decimal(digits: Seq<u8>, x: nat, d: nat)
    requires
        d < 10,
    ensures
        number(Seq::empty()) == 0,
        number(digits.push((48 + d) as u8)) == 10 * number(digits) + d,
        decimal(d) == seq![(48 + d) as u8],
        x > 0 ==> decimal(10 * x + d) == decimal(x).push((48 + d) as u8),
        forall|b: u8| #[trigger] is_digit(b) <==> 48 <= b <= 57,
        all_digits(digits) <==> forall|i: int| 0 <= i < digits.len() ==> 48 <= #[trigger] digits[i]
            <= 57,
{
    assert(digits.push((48 + d) as u8).drop_last() =~= digits);
    if all_digits(digits) {
        assert forall|i: int| 0 <= i < digits.len() implies 48 <= #[trigger] digits[i] <= 57 by {
            assert(is_digit(digits[i]));
        }
    }
}

/// Get the decimal digits of `x`.
pub fn to_decimal(x: u32) -> (ret: Vec<u8>)
    ensures
        ret@ == decimal(x as nat),
    decreases x,
{
    if x < 10 {
        let mut ret: Vec<u8> = Vec::new();
        ret.push(48 + x as u8);
        assert(ret@ =~= decimal(x as nat));
        ret
    } else {
        let mut ret = to_decimal(x / 10);
        ret.push(48 + (x % 10) as u8);
        ret
    }
}

} // verus!
