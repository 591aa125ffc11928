//! Whole numbers and fixed-point amounts written out in decimal.

use vstd::prelude::*;

verus! {

/// `String::push` of the standard library appends the character to the
/// end of the string and leaves the rest as it was: so its documentation
/// says, and so it is taken here.
pub assume_specification[ String::push ](text: &mut String, ch: char)
    ensures
        final(text)@ == old(text)@.push(ch),
;

/// The character of a decimal digit: `'0'` for 0 up to `'9'` for 9.
pub open spec fn digit(d: int) -> char {
    (48 + d) as char
}

/// A whole number in decimal, without leading zeros; 0 is `0`.
pub open spec fn decimal(n: nat) -> Seq<char>
    decreases n,
{
    if n < 10 {
        seq![digit(n as int)]
    } else {
        decimal(n / 10).push(digit((n % 10) as int))
    }
}

/// The last `width` decimal digits of a whole number, with zeros in front
/// of a number that has fewer.
pub open spec fn decimal_padded(n: nat, width: nat) -> Seq<char>
    decreases width,
{
    if width == 0 {
        Seq::empty()
    } else {
        decimal_padded(n / 10, (width - 1) as nat).push(digit((n % 10) as int))
    }
}

/// 10 to the power of `places`.
pub open spec fn pow10(places: nat) -> nat
    decreases places,
{
    if places == 0 {
        1
    } else {
        10 * pow10((places - 1) as nat)
    }
}

/// A whole number of units of 10^-`places`, written as a decimal number
/// with exactly `places` digits behind the point.
pub open spec fn fixed_point(n: nat, places: nat) -> Seq<char> {
    decimal(n / pow10(places)).push('.') + decimal_padded(n % pow10(places), places)
}

/// The character of a decimal digit.
pub fn digit_char(d: u8) -> (c: char)
    requires
        d < 10,
    ensures
        c == digit(d as int),
{
    (48u8 + d) as char
}

/// Appends a whole number in decimal, without leading zeros.
pub fn push_decimal(text: &mut String, n: u128)
    ensures
        final(text)@ == old(text)@ + decimal(n as nat),
    decreases n,
{
    if n >= 10 {
        push_decimal(text, n / 10);
    }
    text.push(digit_char((n % 10) as u8));
    proof {
        if n >= 10 {
            assert(old(text)@ + decimal(n as nat) =~= (old(text)@ + decimal((n / 10) as nat)).push(
                digit((n % 10) as int),
            ));
        } else {
            assert(old(text)@ + decimal(n as nat) =~= old(text)@.push(digit(n as int)));
        }
    }
}

/// Appends the last `width` decimal digits of a whole number, with zeros
/// in front of a number that has fewer.
pub fn push_decimal_padded(text: &mut String, n: u128, width: u32)
    ensures
        final(text)@ == old(text)@ + decimal_padded(n as nat, width as nat),
    decreases width,
{
    if width > 0 {
        push_decimal_padded(text, n / 10, width - 1);
        text.push(digit_char((n % 10) as u8));
        proof {
            assert(old(text)@ + decimal_padded(n as nat, width as nat) =~= (old(text)@
                + decimal_padded((n / 10) as nat, (width - 1) as nat)).push(
                digit((n % 10) as int),
            ));
        }
    } else {
        proof {
            assert(old(text)@ + decimal_padded(n as nat, 0) =~= old(text)@);
        }
    }
}

} // verus!
