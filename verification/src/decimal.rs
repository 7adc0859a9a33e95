//! Unsigned decimal numerals as ASCII text: formatting and the `u16`
//! reading that the standard library's `str::parse::<u16>` performs.

use vstd::prelude::*;

verus! {

/// The byte of `+`.
pub const PLUS_SIGN: u8 = 43;

/// The byte of `0`.
pub const DIGIT_ZERO: u8 = 48;

/// The byte of `9`.
pub const DIGIT_NINE: u8 = 57;

/// The ASCII digit for a value below ten.
pub open spec fn digit_byte(d: nat) -> u8
    recommends
        d < 10,
{
    (DIGIT_ZERO + d) as u8
}

/// Whether a byte is an ASCII digit `0`..`9`.
pub open spec fn is_digit(b: u8) -> bool {
    DIGIT_ZERO <= b <= DIGIT_NINE
}

/// The shortest decimal numeral of `n` (no sign, no leading zero).
pub open spec fn decimal(n: nat) -> Seq<u8>
    decreases n,
{
    if n < 10 {
        seq![digit_byte(n)]
    } else {
        decimal(n / 10).push(digit_byte(n % 10))
    }
}

/// The numeric value of a sequence of ASCII digits.
pub open spec fn digits_value(s: Seq<u8>) -> nat
    decreases s.len(),
{
    if s.len() == 0 {
        0
    } else {
        digits_value(s.drop_last()) * 10 + (s.last() - DIGIT_ZERO) as nat
    }
}

/// Whether every byte of `s` is an ASCII digit.
pub open spec fn all_digits(s: Seq<u8>) -> bool {
    forall|i: int| 0 <= i < s.len() ==> is_digit(#[trigger] s[i])
}

/// What `str::parse::<u16>` gives for the text `s`: an optional leading
/// `+` (not alone), then one or more ASCII digits whose value fits in `u16`.
pub open spec fn u16_text_value(s: Seq<u8>) -> Option<u16> {
    let digits = if s.len() > 1 && s[0] == PLUS_SIGN { s.drop_first() } else { s };
    if digits.len() > 0 && all_digits(digits) && digits_value(digits) <= u16::MAX {
        Some(digits_value(digits) as u16)
    } else {
        None
    }
}

/// The numeral of `n` has at least one byte and only digits.
pub proof fn lemma_decimal_digits(n: nat)
    ensures
        decimal(n).len() >= 1,
        all_digits(decimal(n)),
    decreases n,
{
    if n >= 10 {
        lemma_decimal_digits(n / 10);
    }
}

/// Reading the numeral of `n` gives back `n`.
pub proof fn lemma_decimal_value(n: nat)
    ensures
        digits_value(decimal(n)) == n,
    decreases n,
{
    if n >= 10 {
        lemma_decimal_value(n / 10);
        let d = decimal(n / 10).push(digit_byte(n % 10));
        assert(d.drop_last() =~= decimal(n / 10));
        assert(d.last() == digit_byte(n % 10));
        assert(digit_byte(n % 10) - DIGIT_ZERO == n % 10);
        assert(decimal(n) == d);
        assert(digits_value(d) == digits_value(decimal(n / 10)) * 10 + (n % 10));
        assert((n / 10) * 10 + n % 10 == n) by (nonlinear_arith);
    } else {
        let d = seq![digit_byte(n)];
        assert(decimal(n) == d);
        assert(d.drop_last() =~= Seq::<u8>::empty());
        assert(d.last() == digit_byte(n));
        assert(digit_byte(n) - DIGIT_ZERO == n);
        assert(digits_value(d.drop_last()) == 0);
        assert(digits_value(d) == digits_value(d.drop_last()) * 10 + (d.last() - DIGIT_ZERO) as nat);
    }
}

/// `str::parse::<u16>` reads the numeral of `n` as `n` exactly when `n`
/// fits in `u16`, and refuses it otherwise.
pub proof fn lemma_decimal_u16_text(n: nat)
    ensures
        u16_text_value(decimal(n)) == (if n <= u16::MAX { Some(n as u16) } else { None::<u16> }),
{
    lemma_decimal_digits(n);
    lemma_decimal_value(n);
    assert(is_digit(decimal(n)[0]));
}

/// Appends the decimal numeral of `n` to `out`.
pub fn push_decimal(out: &mut Vec<u8>, n: u64)
    ensures
        final(out)@ == old(out)@ + decimal(n as nat),
    decreases n,
{
    if n >= 10 {
        push_decimal(out, n / 10);
    }
    let d: u8 = (n % 10) as u8;
    out.push(DIGIT_ZERO + d);
    proof {
        if n >= 10 {
            assert(decimal(n as nat) == decimal((n / 10) as nat).push(digit_byte((n % 10) as nat)));
        }
    }
    assert(final(out)@ =~= old(out)@ + decimal(n as nat));
}

/// Reads `text` as `str::parse::<u16>` does: `None` for empty text, a
/// lone `+`, any byte other than a digit after an optional leading `+`,
/// or a value above `u16::MAX`.
pub fn parse_u16(text: &[u8]) -> (r: Option<u16>)
    ensures
        r == u16_text_value(text@),
{
    let r = parse_u16_in(text, 0, text.len());
    assert(text@.subrange(0, text@.len() as int) =~= text@);
    r
}

/// Reads the bytes `text[lo..hi]` as `str::parse::<u16>` does.
pub fn parse_u16_in(text: &[u8], lo: usize, hi: usize) -> (r: Option<u16>)
    requires
        lo <= hi <= text@.len(),
    ensures
        r == u16_text_value(text@.subrange(lo as int, hi as int)),
{
    let ghost s = text@.subrange(lo as int, hi as int);
    let start: usize = if hi - lo > 1 && text[lo] == PLUS_SIGN { lo + 1 } else { lo };
    let ghost digits = if s.len() > 1 && s[0] == PLUS_SIGN { s.drop_first() } else { s };
    assert(digits =~= text@.subrange(start as int, hi as int));
    if start == hi {
        return None;
    }
    let mut acc: u32 = 0;
    let mut overflow = false;
    let mut i: usize = start;
    while i < hi
        invariant
            lo <= start <= i <= hi <= text@.len(),
            s == text@.subrange(lo as int, hi as int),
            digits =~= text@.subrange(start as int, hi as int),
            digits == (if s.len() > 1 && s[0] == PLUS_SIGN { s.drop_first() } else { s }),
            all_digits(text@.subrange(start as int, i as int)),
            overflow ==> digits_value(text@.subrange(start as int, i as int)) > u16::MAX,
            !overflow ==> acc as nat == digits_value(text@.subrange(start as int, i as int)),
            !overflow ==> acc <= u16::MAX,
        decreases hi - i,
    {
        let b = text[i];
        if !(DIGIT_ZERO <= b && b <= DIGIT_NINE) {
            assert(digits[i - start] == b);
            assert(!is_digit(digits[i - start]));
            assert(!all_digits(digits));
            return None;
        }
        let ghost prev = text@.subrange(start as int, i as int);
        let ghost next = text@.subrange(start as int, i + 1);
        assert(next.drop_last() =~= prev);
        assert(next.last() == b);
        assert(all_digits(next)) by {
            assert forall|j: int| 0 <= j < next.len() implies is_digit(#[trigger] next[j]) by {
                if j < prev.len() {
                    assert(next[j] == prev[j]);
                }
            }
        }
        if !overflow {
            let v: u32 = acc * 10 + (b - DIGIT_ZERO) as u32;
            if v > 65535u32 {
                overflow = true;
            } else {
                acc = v;
            }
        }
        i = i + 1;
    }
    if overflow {
        None
    } else {
        Some(acc as u16)
    }
}

} // verus!
