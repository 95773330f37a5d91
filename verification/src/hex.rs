//! Hexadecimal digits: the lowercase rendering of a nibble, the value of a
//! digit in either case, and the proofs that the two are inverse.

use vstd::prelude::*;

verus! {

/// The lowercase hexadecimal digit for a nibble value below 16.
pub open spec fn hex_char_of(n: u8) -> u8 {
    if n < 10 {
        (n + 0x30) as u8
    } else {
        (n + 0x57) as u8
    }
}

/// The ASCII bytes that count as hexadecimal digits, in either case.
pub open spec fn is_hex_digit(c: u8) -> bool {
    (0x30 <= c && c <= 0x39) || (0x61 <= c && c <= 0x66) || (0x41 <= c && c <= 0x46)
}

/// The value of a hexadecimal digit byte.
pub open spec fn hex_val(c: u8) -> u8 {
    if 0x30 <= c && c <= 0x39 {
        (c - 0x30) as u8
    } else if 0x61 <= c && c <= 0x66 {
        (c - 0x57) as u8
    } else {
        (c - 0x37) as u8
    }
}

/// Nibble `i` of a byte sequence: the high half of byte `i / 2` when `i` is
/// even, the low half when `i` is odd.
pub open spec fn nibble_of(b: Seq<u8>, i: int) -> u8 {
    if i % 2 == 0 {
        b[i / 2] >> 4u8
    } else {
        (b[i / 2] & 0x0fu8) as u8
    }
}

/// Rendering a nibble as a lowercase digit and reading the digit back gives
/// the nibble again.
pub proof fn lemma_hex_char_inverse(n: u8)
    requires
        n < 16,
    ensures
        is_hex_digit(hex_char_of(n)),
        hex_val(hex_char_of(n)) == n,
{
}

/// The two nibbles of a byte are below 16 and recombine to the byte.
pub proof fn lemma_nibbles_recombine(x: u8)
    ensures
        (x >> 4u8) < 16,
        (x & 0x0fu8) < 16,
        (x >> 4u8) * 16 + (x & 0x0fu8) == x,
{
    assert((x >> 4u8) < 16 && (x & 0x0fu8) < 16 && (x >> 4u8) * 16 + (x & 0x0fu8) == x)
        by (bit_vector);
}

/// The lowercase hexadecimal digit for a nibble value.
pub(crate) fn hex_char(n: u8) -> (r: u8)
    requires
        n < 16,
    ensures
        r == hex_char_of(n),
        is_hex_digit(r),
        hex_val(r) == n,
{
    proof {
        lemma_hex_char_inverse(n);
    }
    if n < 10 {
        n + 0x30
    } else {
        n + 0x57
    }
}

/// The value of a hexadecimal digit byte, or `None` where the byte is no
/// such digit.
pub(crate) fn hex_digit_value(c: u8) -> (r: Option<u8>)
    ensures
        (r is Some) <==> is_hex_digit(c),
        r is Some ==> r->Some_0 == hex_val(c) && hex_val(c) < 16,
{
    if 0x30 <= c && c <= 0x39 {
        Some(c - 0x30)
    } else if 0x61 <= c && c <= 0x66 {
        Some(c - 0x57)
    } else if 0x41 <= c && c <= 0x46 {
        Some(c - 0x37)
    } else {
        None
    }
}

} // verus!
