//! The four canonical textual encodings of a UUID — simple, hyphenated,
//! braced, URN — and the rendering operations that copy one of them into a
//! caller-supplied buffer without ever writing past its declared capacity.

use vstd::prelude::*;

use crate::hex::{hex_char, hex_char_of, lemma_nibbles_recombine, nibble_of};
use crate::value::{uuid_byte, Uuid};

verus! {

/// The simple encoding: 32 lowercase hex digits, two per payload byte.
pub open spec fn simple_text(b: Seq<u8>) -> Seq<u8> {
    Seq::new(32, |i: int| hex_char_of(nibble_of(b, i)))
}

/// The positions of the four hyphens in the hyphenated encoding.
pub open spec fn is_hyphen_pos(i: int) -> bool {
    i == 8 || i == 13 || i == 18 || i == 23
}

/// The index into the simple encoding that position `i` of the hyphenated
/// encoding shows, for `i` not a hyphen position.
pub open spec fn hyphen_src(i: int) -> int {
    if i < 8 {
        i
    } else if i < 13 {
        i - 1
    } else if i < 18 {
        i - 2
    } else if i < 23 {
        i - 3
    } else {
        i - 4
    }
}

/// The hyphenated encoding: 36 bytes, hex groups of 8-4-4-4-12 digits
/// separated by hyphens.
pub open spec fn hyphenated_text(b: Seq<u8>) -> Seq<u8> {
    Seq::new(
        36,
        |i: int|
            if is_hyphen_pos(i) {
                0x2du8
            } else {
                simple_text(b)[hyphen_src(i)]
            },
    )
}

/// The braced encoding: the hyphenated encoding wrapped in `{` and `}`,
/// 38 bytes.
pub open spec fn braced_text(b: Seq<u8>) -> Seq<u8> {
    seq![0x7bu8] + hyphenated_text(b) + seq![0x7du8]
}

/// The nine bytes of the lowercase URN prefix, `urn:uuid:`.
pub open spec fn urn_prefix() -> Seq<u8> {
    seq![0x75u8, 0x72u8, 0x6eu8, 0x3au8, 0x75u8, 0x75u8, 0x69u8, 0x64u8, 0x3au8]
}

/// The URN encoding: the prefix `urn:uuid:` followed by the hyphenated
/// encoding, 45 bytes.
pub open spec fn urn_text(b: Seq<u8>) -> Seq<u8> {
    urn_prefix() + hyphenated_text(b)
}

/// The index into the simple encoding shown at a non-hyphen position.
fn hyphen_src_exec(i: usize) -> (r: usize)
    requires
        i < 36,
        !is_hyphen_pos(i as int),
    ensures
        r == hyphen_src(i as int),
        r < 32,
{
    if i < 8 {
        i
    } else if i < 13 {
        i - 1
    } else if i < 18 {
        i - 2
    } else if i < 23 {
        i - 3
    } else {
        i - 4
    }
}

/// One byte of the simple encoding of a UUID.
fn simple_char(uuid: &Uuid, i: usize) -> (c: u8)
    requires
        i < 32,
    ensures
        c == simple_text(uuid@)[i as int],
{
    let byte = uuid_byte(uuid, i / 2);
    proof {
        lemma_nibbles_recombine(byte);
    }
    let n = if i % 2 == 0 {
        byte >> 4u8
    } else {
        byte & 0x0fu8
    };
    assert(n == nibble_of(uuid@, i as int));
    hex_char(n)
}

/// One byte of the hyphenated encoding of a UUID.
fn hyphenated_char(uuid: &Uuid, i: usize) -> (c: u8)
    requires
        i < 36,
    ensures
        c == hyphenated_text(uuid@)[i as int],
{
    if i == 8 || i == 13 || i == 18 || i == 23 {
        0x2du8
    } else {
        let s = hyphen_src_exec(i);
        simple_char(uuid, s)
    }
}

/// Writes the 36 bytes of the hyphenated encoding at `offset`, leaving the
/// rest of the buffer as it was.
fn write_hyphenated_at(uuid: &Uuid, buffer: &mut Vec<u8>, offset: usize)
    requires
        offset + 36 <= old(buffer)@.len(),
    ensures
        final(buffer)@.len() == old(buffer)@.len(),
        forall|i: int|
            0 <= i < 36 ==> final(buffer)@[offset + i] == hyphenated_text(uuid@)[i],
        forall|i: int|
            0 <= i < final(buffer)@.len() && !(offset <= i < offset + 36) ==> final(buffer)@[i]
                == old(buffer)@[i],
{
    let cap = buffer.len();
    let mut i: usize = 0;
    while i < 36
        invariant
            offset + 36 <= cap,
            cap == old(buffer)@.len(),
            offset + 36 <= old(buffer)@.len(),
            buffer@.len() == old(buffer)@.len(),
            i <= 36,
            forall|j: int| 0 <= j < i ==> buffer@[offset + j] == hyphenated_text(uuid@)[j],
            forall|j: int|
                0 <= j < buffer@.len() && !(offset <= j < offset + i) ==> buffer@[j] == old(
                    buffer,
                )@[j],
        decreases 36 - i,
    {
        let c = hyphenated_char(uuid, i);
        buffer.set(offset + i, c);
        i += 1;
    }
}

/// Writes the 32 bytes of the simple encoding at the start of the buffer,
/// leaving the rest as it was.
fn write_simple(uuid: &Uuid, buffer: &mut Vec<u8>)
    requires
        32 <= old(buffer)@.len(),
    ensures
        final(buffer)@.len() == old(buffer)@.len(),
        forall|i: int| 0 <= i < 32 ==> final(buffer)@[i] == simple_text(uuid@)[i],
        forall|i: int|
            32 <= i < final(buffer)@.len() ==> final(buffer)@[i] == old(buffer)@[i],
{
    let mut i: usize = 0;
    while i < 32
        invariant
            32 <= old(buffer)@.len(),
            buffer@.len() == old(buffer)@.len(),
            i <= 32,
            forall|j: int| 0 <= j < i ==> buffer@[j] == simple_text(uuid@)[j],
            forall|j: int| i <= j < buffer@.len() ==> buffer@[j] == old(buffer)@[j],
        decreases 32 - i,
    {
        let c = simple_char(uuid, i);
        buffer.set(i, c);
        i += 1;
    }
}

/// Copy the UUID in simple form (32 bytes) into the caller's buffer, whose
/// length declares its capacity, and return the number of bytes written.
/// Returns -1, writing nothing, when the capacity is below 32.
pub fn ruuid_get_simple(uuid: &Uuid, buffer: &mut Vec<u8>) -> (r: i32)
    ensures
        old(buffer)@.len() < 32 ==> r == -1 && final(buffer)@ == old(buffer)@,
        old(buffer)@.len() >= 32 ==> {
            &&& r == 32
            &&& final(buffer)@.len() == old(buffer)@.len()
            &&& final(buffer)@.subrange(0, 32) == simple_text(uuid@)
            &&& (forall|i: int|
                32 <= i < final(buffer)@.len() ==> final(buffer)@[i] == old(buffer)@[i])
        },
{
    if buffer.len() < 32 {
        return -1;
    }
    write_simple(uuid, buffer);
    proof {
        assert(buffer@.subrange(0, 32) =~= simple_text(uuid@));
    }
    32
}

/// Copy the UUID in hyphenated form (36 bytes) into the caller's buffer,
/// whose length declares its capacity, and return the number of bytes
/// written. Returns -1, writing nothing, when the capacity is below 36.
pub fn ruuid_get_hyphenated(uuid: &Uuid, buffer: &mut Vec<u8>) -> (r: i32)
    ensures
        old(buffer)@.len() < 36 ==> r == -1 && final(buffer)@ == old(buffer)@,
        old(buffer)@.len() >= 36 ==> {
            &&& r == 36
            &&& final(buffer)@.len() == old(buffer)@.len()
            &&& final(buffer)@.subrange(0, 36) == hyphenated_text(uuid@)
            &&& (forall|i: int|
                36 <= i < final(buffer)@.len() ==> final(buffer)@[i] == old(buffer)@[i])
        },
{
    if buffer.len() < 36 {
        return -1;
    }
    write_hyphenated_at(uuid, buffer, 0);
    proof {
        assert(buffer@.subrange(0, 36) =~= hyphenated_text(uuid@));
    }
    36
}

/// Copy the UUID in braced form (38 bytes) into the caller's buffer, whose
/// length declares its capacity, and return the number of bytes written.
/// Returns -1, writing nothing, when the capacity is below 38.
pub fn ruuid_get_braced(uuid: &Uuid, buffer: &mut Vec<u8>) -> (r: i32)
    ensures
        old(buffer)@.len() < 38 ==> r == -1 && final(buffer)@ == old(buffer)@,
        old(buffer)@.len() >= 38 ==> {
            &&& r == 38
            &&& final(buffer)@.len() == old(buffer)@.len()
            &&& final(buffer)@.subrange(0, 38) == braced_text(uuid@)
            &&& (forall|i: int|
                38 <= i < final(buffer)@.len() ==> final(buffer)@[i] == old(buffer)@[i])
        },
{
    if buffer.len() < 38 {
        return -1;
    }
    buffer.set(0, 0x7bu8);
    write_hyphenated_at(uuid, buffer, 1);
    buffer.set(37, 0x7du8);
    proof {
        let res = buffer@.subrange(0, 38);
        assert forall|i: int| 0 <= i < 38 implies res[i] == braced_text(uuid@)[i] by {
            if i == 0 {
            } else if i == 37 {
            } else {
                assert(res[i] == hyphenated_text(uuid@)[i - 1]);
            }
        }
        assert(res =~= braced_text(uuid@));
    }
    38
}

/// Copy the UUID in URN form (45 bytes, `urn:uuid:` then the hyphenated
/// form) into the caller's buffer, whose length declares its capacity, and
/// return the number of bytes written. Returns -1, writing nothing, when the
/// capacity is below 45.
pub fn ruuid_get_urn(uuid: &Uuid, buffer: &mut Vec<u8>) -> (r: i32)
    ensures
        old(buffer)@.len() < 45 ==> r == -1 && final(buffer)@ == old(buffer)@,
        old(buffer)@.len() >= 45 ==> {
            &&& r == 45
            &&& final(buffer)@.len() == old(buffer)@.len()
            &&& final(buffer)@.subrange(0, 45) == urn_text(uuid@)
            &&& (forall|i: int|
                45 <= i < final(buffer)@.len() ==> final(buffer)@[i] == old(buffer)@[i])
        },
{
    if buffer.len() < 45 {
        return -1;
    }
    buffer.set(0, 0x75u8);
    buffer.set(1, 0x72u8);
    buffer.set(2, 0x6eu8);
    buffer.set(3, 0x3au8);
    buffer.set(4, 0x75u8);
    buffer.set(5, 0x75u8);
    buffer.set(6, 0x69u8);
    buffer.set(7, 0x64u8);
    buffer.set(8, 0x3au8);
    write_hyphenated_at(uuid, buffer, 9);
    proof {
        let res = buffer@.subrange(0, 45);
        assert forall|i: int| 0 <= i < 45 implies res[i] == urn_text(uuid@)[i] by {
            if i < 9 {
                assert(urn_text(uuid@)[i] == urn_prefix()[i]);
            } else {
                assert(res[i] == hyphenated_text(uuid@)[i - 9]);
            }
        }
        assert(res =~= urn_text(uuid@));
    }
    45
}

} // verus!
