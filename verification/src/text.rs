//! Building text: decimal numerals of numbers inside `String`s.

use vstd::prelude::*;
use crate::decimal::{decimal, digit_byte, DIGIT_ZERO};

verus! {

/// The decimal numeral of `n` as characters.
pub open spec fn decimal_text(n: nat) -> Seq<char> {
    decimal(n).map_values(|b: u8| b as char)
}

/// Calls `String::push`: the character is appended at the end.
#[verifier::external_body]
fn push_char(s: &mut String, c: char)
    ensures
        final(s)@ == old(s)@.push(c),
{
    s.push(c)
}

/// Appends the decimal numeral of `n` to `s`.
pub fn push_decimal_text(s: &mut String, n: u64)
    ensures
        final(s)@ == old(s)@ + decimal_text(n as nat),
    decreases n,
{
    if n >= 10 {
        push_decimal_text(s, n / 10);
    }
    let d: u8 = (n % 10) as u8;
    push_char(s, (DIGIT_ZERO + d) as char);
    proof {
        let n0 = n as nat;
        if n >= 10 {
            assert(decimal(n0) == decimal(n0 / 10).push(digit_byte(n0 % 10)));
            assert(decimal_text(n0) =~= decimal_text(n0 / 10).push(digit_byte(n0 % 10) as char));
        } else {
            assert(decimal(n0) == seq![digit_byte(n0)]);
            assert(decimal_text(n0) =~= seq![digit_byte(n0) as char]);
        }
    }
    assert(final(s)@ =~= old(s)@ + decimal_text(n as nat));
}

} // verus!
