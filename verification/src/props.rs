//! The library's laws, stated and proved over the text grammar and the
//! payload model: each of the four renderings parses back to the payload it
//! was rendered from, the nil payload is nil, a payload with a nonzero
//! version nibble is never nil, and name-derived payloads are deterministic.

use vstd::prelude::*;

use crate::generate::v5_bytes;
use crate::hex::{
    hex_val, is_hex_digit, lemma_hex_char_inverse, lemma_nibbles_recombine, nibble_of,
};
use crate::parse::{
    hyphen_dst, hyphens_placed, parse_hyphenated, parse_simple, parse_uuid_text, strip_hyphens,
};
use crate::render::{
    braced_text, hyphen_src, hyphenated_text, is_hyphen_pos, simple_text, urn_prefix, urn_text,
};
use crate::value::{nil_bytes, spec_is_nil};

verus! {

/// Every byte of the simple rendering is a hex digit, and reading it back
/// gives the nibble it was rendered from.
proof fn lemma_simple_text_digits(b: Seq<u8>, i: int)
    requires
        b.len() == 16,
        0 <= i < 32,
    ensures
        is_hex_digit(simple_text(b)[i]),
        hex_val(simple_text(b)[i]) == nibble_of(b, i),
{
    lemma_nibbles_recombine(b[i / 2]);
    lemma_hex_char_inverse(nibble_of(b, i));
}

/// Decoding the simple rendering of a payload gives the payload back.
proof fn lemma_parse_simple_of_simple_text(b: Seq<u8>)
    requires
        b.len() == 16,
    ensures
        parse_simple(simple_text(b)) == Some(b),
{
    let t = simple_text(b);
    assert forall|i: int| 0 <= i < t.len() implies is_hex_digit(t[i]) by {
        lemma_simple_text_digits(b, i);
    }
    let p = Seq::new(t.len() / 2, |i: int| (hex_val(t[2 * i]) * 16 + hex_val(t[2 * i + 1])) as u8);
    assert forall|i: int| 0 <= i < 16 implies p[i] == b[i] by {
        lemma_simple_text_digits(b, 2 * i);
        lemma_simple_text_digits(b, 2 * i + 1);
        lemma_nibbles_recombine(b[i]);
        assert(nibble_of(b, 2 * i) == b[i] >> 4u8);
        assert(nibble_of(b, 2 * i + 1) == (b[i] & 0x0fu8) as u8);
    }
    assert(p =~= b);
}

/// Decoding the hyphenated rendering of a payload gives the payload back.
proof fn lemma_parse_hyphenated_of_hyphenated_text(b: Seq<u8>)
    requires
        b.len() == 16,
    ensures
        parse_hyphenated(hyphenated_text(b)) == Some(b),
{
    let t = hyphenated_text(b);
    assert(hyphens_placed(t));
    assert forall|j: int| 0 <= j < 32 implies strip_hyphens(t)[j] == simple_text(b)[j] by {
        assert(!is_hyphen_pos(hyphen_dst(j)));
        assert(hyphen_src(hyphen_dst(j)) == j);
    }
    assert(strip_hyphens(t) =~= simple_text(b));
    lemma_parse_simple_of_simple_text(b);
}

/// Round trip through the simple encoding: rendering a sixteen-byte payload
/// in simple form and parsing that text back yields the payload unchanged.
pub proof fn lemma_round_trip_simple(b: Seq<u8>)
    requires
        b.len() == 16,
    ensures
        parse_uuid_text(simple_text(b)) == Some(b),
{
    lemma_parse_simple_of_simple_text(b);
}

/// Round trip through the hyphenated encoding.
pub proof fn lemma_round_trip_hyphenated(b: Seq<u8>)
    requires
        b.len() == 16,
    ensures
        parse_uuid_text(hyphenated_text(b)) == Some(b),
{
    lemma_parse_hyphenated_of_hyphenated_text(b);
}

/// Round trip through the braced encoding.
pub proof fn lemma_round_trip_braced(b: Seq<u8>)
    requires
        b.len() == 16,
    ensures
        parse_uuid_text(braced_text(b)) == Some(b),
{
    let t = braced_text(b);
    assert(t.len() == 38);
    assert(t[0] == 0x7bu8);
    assert(t[37] == 0x7du8);
    assert(t.subrange(1, 37) =~= hyphenated_text(b));
    lemma_parse_hyphenated_of_hyphenated_text(b);
}

/// Round trip through the URN encoding.
pub proof fn lemma_round_trip_urn(b: Seq<u8>)
    requires
        b.len() == 16,
    ensures
        parse_uuid_text(urn_text(b)) == Some(b),
{
    let t = urn_text(b);
    assert(t.len() == 45);
    assert forall|i: int| 0 <= i < 9 implies t[i] == urn_prefix()[i] by {}
    assert(t.subrange(9, 45) =~= hyphenated_text(b));
    lemma_parse_hyphenated_of_hyphenated_text(b);
}

/// The all-zero payload is nil.
pub proof fn lemma_nil_is_nil()
    ensures
        spec_is_nil(nil_bytes()),
{
}

/// A payload whose version nibble is nonzero is never nil; in particular no
/// version-4 or version-5 payload is the nil value.
pub proof fn lemma_versioned_not_nil(b: Seq<u8>)
    requires
        b.len() == 16,
        b[6] >> 4u8 != 0u8,
    ensures
        !spec_is_nil(b),
{
    assert(0u8 >> 4u8 == 0u8) by (bit_vector);
    if spec_is_nil(b) {
        assert(b[6] == 0u8);
    }
}

/// Name-derived construction is deterministic: two payloads derived from the
/// same namespace and the same name bytes are identical.
pub proof fn lemma_v5_deterministic(u1: Seq<u8>, u2: Seq<u8>, ns: Seq<u8>, name: Seq<u8>)
    requires
        u1 == v5_bytes(ns, name),
        u2 == v5_bytes(ns, name),
    ensures
        u1 == u2,
{
}

} // verus!
