//! Parsing a UUID from text in any of the four canonical encodings: simple,
//! hyphenated, braced, and URN. Hex digits are accepted in either case; the
//! URN prefix is accepted in either case, as the text grammar allows.

use vstd::prelude::*;

use crate::hex::{hex_digit_value, hex_val, is_hex_digit};
use crate::value::{uuid_from_bytes, Uuid};

verus! {

/// What parsing a run of hex digit pairs yields: the decoded bytes when
/// every position holds a hex digit, nothing otherwise.
pub open spec fn parse_simple(t: Seq<u8>) -> Option<Seq<u8>> {
    if forall|i: int| 0 <= i < t.len() ==> is_hex_digit(t[i]) {
        Some(Seq::new(t.len() / 2, |i: int| (hex_val(t[2 * i]) * 16 + hex_val(t[2 * i + 1])) as u8))
    } else {
        None
    }
}

/// The index into a hyphenated text that digit `j` of the underlying simple
/// text stands at.
pub open spec fn hyphen_dst(j: int) -> int {
    if j < 8 {
        j
    } else if j < 12 {
        j + 1
    } else if j < 16 {
        j + 2
    } else if j < 20 {
        j + 3
    } else {
        j + 4
    }
}

/// Whether a 36-byte text carries hyphens at the four field boundaries.
pub open spec fn hyphens_placed(t: Seq<u8>) -> bool {
    t[8] == 0x2du8 && t[13] == 0x2du8 && t[18] == 0x2du8 && t[23] == 0x2du8
}

/// A hyphenated text with its four hyphens removed.
pub open spec fn strip_hyphens(t: Seq<u8>) -> Seq<u8> {
    Seq::new(32, |j: int| t[hyphen_dst(j)])
}

/// What parsing a 36-byte hyphenated text yields.
pub open spec fn parse_hyphenated(t: Seq<u8>) -> Option<Seq<u8>> {
    if hyphens_placed(t) {
        parse_simple(strip_hyphens(t))
    } else {
        None
    }
}

/// Whether a text opens with the URN prefix `urn:uuid:`, each letter in
/// either case.
pub open spec fn is_urn_prefixed(t: Seq<u8>) -> bool {
    &&& (t[0] == 0x75u8 || t[0] == 0x55u8)
    &&& (t[1] == 0x72u8 || t[1] == 0x52u8)
    &&& (t[2] == 0x6eu8 || t[2] == 0x4eu8)
    &&& t[3] == 0x3au8
    &&& (t[4] == 0x75u8 || t[4] == 0x55u8)
    &&& (t[5] == 0x75u8 || t[5] == 0x55u8)
    &&& (t[6] == 0x69u8 || t[6] == 0x49u8)
    &&& (t[7] == 0x64u8 || t[7] == 0x44u8)
    &&& t[8] == 0x3au8
}

/// What parsing a UUID text yields: the sixteen payload bytes when the text
/// is well-formed under one of the four encodings — told apart by length —
/// and nothing otherwise.
pub open spec fn parse_uuid_text(t: Seq<u8>) -> Option<Seq<u8>> {
    if t.len() == 32 {
        parse_simple(t)
    } else if t.len() == 36 {
        parse_hyphenated(t)
    } else if t.len() == 38 {
        if t[0] == 0x7bu8 && t[37] == 0x7du8 {
            parse_hyphenated(t.subrange(1, 37))
        } else {
            None
        }
    } else if t.len() == 45 {
        if is_urn_prefixed(t) {
            parse_hyphenated(t.subrange(9, 45))
        } else {
            None
        }
    } else {
        None
    }
}

/// Decodes 32 hex digits starting at `offset` into sixteen bytes.
fn parse_simple_at(t: &[u8], offset: usize) -> (r: Option<Vec<u8>>)
    requires
        offset + 32 <= t@.len(),
    ensures
        r is Some ==> parse_simple(t@.subrange(offset as int, offset + 32)) == Some(
            (r->Some_0)@,
        ) && (r->Some_0)@.len() == 16,
        r is None ==> parse_simple(t@.subrange(offset as int, offset + 32)) is None,
{
    let ghost sub = t@.subrange(offset as int, offset + 32);
    let len = t.len();
    let mut out: Vec<u8> = Vec::new();
    let mut i: usize = 0;
    while i < 16
        invariant
            offset + 32 <= len,
            len == t@.len(),
            sub == t@.subrange(offset as int, offset + 32),
            i <= 16,
            out@.len() == i,
            forall|j: int| 0 <= j < 2 * i ==> is_hex_digit(sub[j]),
            forall|j: int|
                0 <= j < i ==> out@[j] == (hex_val(sub[2 * j]) * 16 + hex_val(sub[2 * j + 1])) as u8,
        decreases 16 - i,
    {
        let hi = match hex_digit_value(t[offset + 2 * i]) {
            Some(v) => v,
            None => {
                assert(!is_hex_digit(sub[2 * i]));
                return None;
            },
        };
        let lo = match hex_digit_value(t[offset + 2 * i + 1]) {
            Some(v) => v,
            None => {
                assert(!is_hex_digit(sub[2 * i + 1]));
                return None;
            },
        };
        out.push(hi * 16 + lo);
        i += 1;
    }
    proof {
        assert(forall|j: int| 0 <= j < 32 ==> is_hex_digit(sub[j]));
        assert(out@ =~= Seq::new(
            sub.len() / 2,
            |j: int| (hex_val(sub[2 * j]) * 16 + hex_val(sub[2 * j + 1])) as u8,
        ));
    }
    Some(out)
}

/// The hyphenated-text index of simple-text digit `j`.
fn hyphen_dst_exec(j: usize) -> (r: usize)
    requires
        j < 32,
    ensures
        r == hyphen_dst(j as int),
        r < 36,
{
    if j < 8 {
        j
    } else if j < 12 {
        j + 1
    } else if j < 16 {
        j + 2
    } else if j < 20 {
        j + 3
    } else {
        j + 4
    }
}

/// Decodes a 36-byte hyphenated text starting at `offset` into sixteen
/// bytes.
fn parse_hyphenated_at(t: &[u8], offset: usize) -> (r: Option<Vec<u8>>)
    requires
        offset + 36 <= t@.len(),
    ensures
        r is Some ==> parse_hyphenated(t@.subrange(offset as int, offset + 36)) == Some(
            (r->Some_0)@,
        ) && (r->Some_0)@.len() == 16,
        r is None ==> parse_hyphenated(t@.subrange(offset as int, offset + 36)) is None,
{
    let ghost sub = t@.subrange(offset as int, offset + 36);
    let len = t.len();
    if !(t[offset + 8] == 0x2du8 && t[offset + 13] == 0x2du8 && t[offset + 18] == 0x2du8 && t[offset
        + 23] == 0x2du8) {
        assert(!hyphens_placed(sub));
        return None;
    }
    assert(hyphens_placed(sub));
    let mut digits: Vec<u8> = Vec::new();
    let mut j: usize = 0;
    while j < 32
        invariant
            offset + 36 <= len,
            len == t@.len(),
            sub == t@.subrange(offset as int, offset + 36),
            j <= 32,
            digits@.len() == j,
            forall|k: int| 0 <= k < j ==> digits@[k] == sub[hyphen_dst(k)],
        decreases 32 - j,
    {
        let d = hyphen_dst_exec(j);
        digits.push(t[offset + d]);
        j += 1;
    }
    proof {
        assert(digits@ =~= strip_hyphens(sub));
    }
    let r = parse_simple_at(digits.as_slice(), 0);
    proof {
        assert(digits@.subrange(0, 32) =~= strip_hyphens(sub));
    }
    r
}

/// Parses a UUID from a text buffer holding any of the four canonical
/// encodings. Returns the decoded value, or `None` where the text is not a
/// well-formed UUID under any of them. The caller owns the returned value
/// and releases it with [`crate::ruuid_destroy`].
pub fn ruuid_parse(text: &[u8]) -> (r: Option<Uuid>)
    ensures
        r is Some ==> parse_uuid_text(text@) == Some((r->Some_0)@),
        r is None ==> parse_uuid_text(text@) is None,
{
    if text.len() == 32 {
        proof {
            assert(text@.subrange(0, 32) =~= text@);
        }
        match parse_simple_at(text, 0) {
            Some(b) => Some(uuid_from_bytes(b)),
            None => None,
        }
    } else if text.len() == 36 {
        proof {
            assert(text@.subrange(0, 36) =~= text@);
        }
        match parse_hyphenated_at(text, 0) {
            Some(b) => Some(uuid_from_bytes(b)),
            None => None,
        }
    } else if text.len() == 38 {
        if text[0] == 0x7bu8 && text[37] == 0x7du8 {
            match parse_hyphenated_at(text, 1) {
                Some(b) => Some(uuid_from_bytes(b)),
                None => None,
            }
        } else {
            None
        }
    } else if text.len() == 45 {
        let prefixed = (text[0] == 0x75u8 || text[0] == 0x55u8) && (text[1] == 0x72u8 || text[1]
            == 0x52u8) && (text[2] == 0x6eu8 || text[2] == 0x4eu8) && text[3] == 0x3au8 && (text[4]
            == 0x75u8 || text[4] == 0x55u8) && (text[5] == 0x75u8 || text[5] == 0x55u8) && (text[6]
            == 0x69u8 || text[6] == 0x49u8) && (text[7] == 0x64u8 || text[7] == 0x44u8) && text[8]
            == 0x3au8;
        if prefixed {
            match parse_hyphenated_at(text, 9) {
                Some(b) => Some(uuid_from_bytes(b)),
                None => None,
            }
        } else {
            None
        }
    } else {
        None
    }
}

} // verus!
