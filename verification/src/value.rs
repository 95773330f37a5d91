//! The owned UUID value: construction of the nil value, the nil test, and
//! explicit destruction.

use vstd::prelude::*;

verus! {

/// The all-zero 16-byte payload.
pub open spec fn nil_bytes() -> Seq<u8> {
    Seq::new(16, |i: int| 0u8)
}

/// A payload is nil when every byte is zero.
pub open spec fn spec_is_nil(b: Seq<u8>) -> bool {
    forall|i: int| 0 <= i < b.len() ==> b[i] == 0u8
}

/// An owned 128-bit UUID value. The sixteen payload bytes are fixed at
/// construction; the caller owns the value until it is destroyed (dropped).
pub struct Uuid {
    bytes: Vec<u8>,
}

impl Uuid {
    #[verifier::type_invariant]
    spec fn type_inv(self) -> bool {
        self.bytes@.len() == 16
    }
}

impl View for Uuid {
    type V = Seq<u8>;

    closed spec fn view(&self) -> Seq<u8> {
        self.bytes@
    }
}

/// Builds a UUID value from its sixteen payload bytes.
pub(crate) fn uuid_from_bytes(bytes: Vec<u8>) -> (r: Uuid)
    requires
        bytes@.len() == 16,
    ensures
        r@ == bytes@,
{
    Uuid { bytes }
}

/// Reads one payload byte of a UUID value.
pub(crate) fn uuid_byte(uuid: &Uuid, i: usize) -> (r: u8)
    requires
        i < 16,
    ensures
        r == uuid@[i as int],
{
    proof {
        use_type_invariant(uuid);
    }
    uuid.bytes[i]
}

/// Generate a new nil UUID with all zeros. The caller owns the value and
/// releases it with [`ruuid_destroy`].
pub fn ruuid_generate_nil() -> (r: Uuid)
    ensures
        r@ == nil_bytes(),
        spec_is_nil(r@),
{
    let mut bytes: Vec<u8> = Vec::new();
    while bytes.len() < 16
        invariant
            bytes@.len() <= 16,
            forall|j: int| 0 <= j < bytes@.len() ==> bytes@[j] == 0u8,
        decreases 16 - bytes@.len(),
    {
        bytes.push(0u8);
    }
    proof {
        assert(bytes@ =~= nil_bytes());
    }
    Uuid { bytes }
}

/// Test whether a UUID is the nil UUID: returns 1 when all sixteen bytes are
/// zero and 0 otherwise.
pub fn ruuid_is_nil(uuid: &Uuid) -> (r: i32)
    ensures
        r == 0 || r == 1,
        (r == 1) <==> spec_is_nil(uuid@),
{
    proof {
        use_type_invariant(uuid);
    }
    let mut i: usize = 0;
    while i < 16
        invariant
            uuid@.len() == 16,
            i <= 16,
            forall|j: int| 0 <= j < i ==> uuid@[j] == 0u8,
        decreases 16 - i,
    {
        if uuid.bytes[i] != 0 {
            return 0;
        }
        i += 1;
    }
    1
}

/// Destroy a UUID once you are done with it. Ownership of the value moves
/// into this call; the borrow checker rules out any further use, so a second
/// destruction of the same value cannot be written.
pub fn ruuid_destroy(uuid: Uuid) {
    let _ = uuid;
}

} // verus!
