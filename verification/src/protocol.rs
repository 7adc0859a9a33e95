//! The in-band messages that travel between the terminal client and the
//! tunnel server: resize commands and the end-of-session marker.

use vstd::prelude::*;
use vstd::string::StringSliceAdditionalSpecFns;
use crate::decimal::{
    decimal, is_digit, lemma_decimal_digits, lemma_decimal_u16_text, parse_u16_in, push_decimal,
    u16_text_value,
};

verus! {

/// Text that starts a resize command sent to the terminal client.
pub const RESIZE_PREFIX: &'static str = "RESIZE:";

/// Text broadcast to web viewers when the shared terminal goes away.
pub const SESSION_ENDED: &'static str = "__TSHARE_SESSION_ENDED__";

/// The byte that separates the columns from the rows (`:`).
pub const FIELD_SEPARATOR: u8 = 58;

/// The bytes of the resize prefix.
pub open spec fn resize_prefix() -> Seq<u8> {
    RESIZE_PREFIX.spec_bytes()
}

/// The command that asks the terminal client to resize its terminal:
/// `RESIZE:{cols}:{rows}` with both numbers in decimal.
pub open spec fn resize_command_bytes(cols: nat, rows: nat) -> Seq<u8> {
    resize_prefix() + decimal(cols) + seq![FIELD_SEPARATOR] + decimal(rows)
}

/// `k` is the position of the only separator in `rest`.
pub open spec fn is_sole_separator(rest: Seq<u8>, k: int) -> bool {
    &&& 0 <= k < rest.len()
    &&& rest[k] == FIELD_SEPARATOR
    &&& forall|j: int| 0 <= j < rest.len() && j != k ==> rest[j] != FIELD_SEPARATOR
}

/// The size that a message from the tunnel asks the terminal client to
/// take, if it is a resize command: the message starts with the resize
/// prefix, the rest splits at `:` into exactly two fields, and both read
/// as `u16` (columns first). Any other message is terminal input.
pub open spec fn resize_request(data: Seq<u8>) -> Option<(u16, u16)> {
    let p = resize_prefix();
    if data.len() >= p.len() && data.subrange(0, p.len() as int) == p {
        let rest = data.subrange(p.len() as int, data.len() as int);
        if exists|k: int| is_sole_separator(rest, k) {
            let k = choose|k: int| is_sole_separator(rest, k);
            match (u16_text_value(rest.subrange(0, k)), u16_text_value(rest.subrange(k + 1, rest.len() as int))) {
                (Some(cols), Some(rows)) => Some((cols, rows)),
                _ => None,
            }
        } else {
            None
        }
    } else {
        None
    }
}

/// Copies the bytes of `s` into a vector.
pub fn text_bytes(s: &str) -> (r: Vec<u8>)
    ensures
        r@ == s.spec_bytes(),
{
    let b = s.as_bytes();
    let mut r: Vec<u8> = Vec::new();
    let mut i: usize = 0;
    while i < b.len()
        invariant
            b@ == s.spec_bytes(),
            i <= b@.len(),
            r@ =~= b@.subrange(0, i as int),
        decreases b@.len() - i,
    {
        r.push(b[i]);
        i = i + 1;
    }
    assert(r@ =~= b@);
    r
}

/// The end-of-session marker as bytes.
pub fn session_ended_message() -> (r: Vec<u8>)
    ensures
        r@ == SESSION_ENDED.spec_bytes(),
{
    text_bytes(SESSION_ENDED)
}

/// The resize command for a terminal of `cols` columns and `rows` rows.
pub fn resize_command(cols: u64, rows: u64) -> (r: Vec<u8>)
    ensures
        r@ == resize_command_bytes(cols as nat, rows as nat),
{
    let mut r = text_bytes(RESIZE_PREFIX);
    push_decimal(&mut r, cols);
    r.push(FIELD_SEPARATOR);
    push_decimal(&mut r, rows);
    r
}

/// Reads a message from the tunnel as a resize command, if it is one.
pub fn parse_resize_command(data: &[u8]) -> (r: Option<(u16, u16)>)
    ensures
        r == resize_request(data@),
{
    let p = RESIZE_PREFIX.as_bytes();
    let plen = p.len();
    let ghost pv = resize_prefix();
    if data.len() < plen {
        return None;
    }
    let mut i: usize = 0;
    while i < plen
        invariant
            pv == resize_prefix(),
            p@ == pv,
            plen == pv.len(),
            plen <= data@.len(),
            i <= plen,
            data@.subrange(0, i as int) =~= pv.subrange(0, i as int),
        decreases plen - i,
    {
        if data[i] != p[i] {
            assert(data@.subrange(0, plen as int)[i as int] != pv[i as int]);
            assert(data@.subrange(0, plen as int) != pv);
            return None;
        }
        i = i + 1;
    }
    assert(data@.subrange(0, plen as int) =~= pv);
    let ghost rest = data@.subrange(plen as int, data@.len() as int);
    // Find the separators after the prefix.
    let mut count: usize = 0;
    let mut first: usize = 0;
    let mut j: usize = plen;
    while j < data.len()
        invariant
            plen <= j <= data@.len(),
            rest == data@.subrange(plen as int, data@.len() as int),
            count <= j - plen,
            count == 0 ==> forall|m: int| 0 <= m < j - plen ==> rest[m] != FIELD_SEPARATOR,
            count >= 1 ==> plen <= first < j && rest[first - plen] == FIELD_SEPARATOR,
            count == 1 ==> forall|m: int| 0 <= m < j - plen && m != first - plen ==> rest[m] != FIELD_SEPARATOR,
            count >= 2 ==> exists|m: int| 0 <= m < j - plen && m != first - plen && rest[m] == FIELD_SEPARATOR,
        decreases data@.len() - j,
    {
        assert(rest[j - plen] == data@[j as int]);
        if data[j] == FIELD_SEPARATOR {
            if count == 0 {
                first = j;
            }
            if count < 2 {
                count = count + 1;
            }
        }
        j = j + 1;
    }
    if count != 1 {
        assert(!exists|k: int| is_sole_separator(rest, k)) by {
            if count >= 2 {
                let m = choose|m: int| 0 <= m < rest.len() && m != first - plen && rest[m] == FIELD_SEPARATOR;
                assert forall|k: int| !is_sole_separator(rest, k) by {
                    if is_sole_separator(rest, k) {
                        assert(k == m);
                        assert(k == first - plen);
                    }
                }
            }
        }
        return None;
    }
    let k = first - plen;
    assert(is_sole_separator(rest, k as int));
    assert(forall|k2: int| is_sole_separator(rest, k2) ==> k2 == k);
    assert(rest.subrange(0, k as int) =~= data@.subrange(plen as int, first as int));
    assert(rest.subrange(k + 1, rest.len() as int) =~= data@.subrange(first + 1, data@.len() as int));
    let cols = parse_u16_in(data, plen, first);
    let rows = parse_u16_in(data, first + 1, data.len());
    match (cols, rows) {
        (Some(c), Some(r)) => Some((c, r)),
        _ => None,
    }
}

/// The resize command that the tunnel builds for a size is read back by
/// the terminal client as that very size when both numbers fit in `u16`;
/// otherwise the client does not read it as a resize command at all.
pub proof fn lemma_resize_command_round_trip(cols: nat, rows: nat)
    ensures
        resize_request(resize_command_bytes(cols, rows)) == (if cols <= u16::MAX && rows <= u16::MAX {
            Some((cols as u16, rows as u16))
        } else {
            None::<(u16, u16)>
        }),
{
    let p = resize_prefix();
    let dc = decimal(cols);
    let dr = decimal(rows);
    let data = resize_command_bytes(cols, rows);
    lemma_decimal_digits(cols);
    lemma_decimal_digits(rows);
    lemma_decimal_u16_text(cols);
    lemma_decimal_u16_text(rows);
    assert(data.subrange(0, p.len() as int) =~= p);
    let rest = data.subrange(p.len() as int, data.len() as int);
    assert(rest =~= dc + seq![FIELD_SEPARATOR] + dr);
    let k = dc.len() as int;
    assert forall|j: int| 0 <= j < rest.len() && j != k implies rest[j] != FIELD_SEPARATOR by {
        if j < k {
            assert(rest[j] == dc[j]);
            assert(is_digit(dc[j]));
        } else {
            assert(rest[j] == dr[j - k - 1]);
            assert(is_digit(dr[j - k - 1]));
        }
    }
    assert(is_sole_separator(rest, k));
    let kc = choose|k2: int| is_sole_separator(rest, k2);
    assert(kc == k);
    assert(rest.subrange(0, k) =~= dc);
    assert(rest.subrange(k + 1, rest.len() as int) =~= dr);
}

} // verus!
