//! Construction of random (version 4) and name-derived (version 5) UUID
//! values. The bit layouts behind them — a cryptographic random source and
//! the RFC 4122 SHA-1 construction — come from the `uuid` crate through
//! trusted wrappers; everything stated of the results is proved from those
//! wrappers' contracts.

use vstd::prelude::*;

use crate::props::lemma_versioned_not_nil;
use crate::value::{spec_is_nil, uuid_from_bytes, Uuid};

verus! {

/// The sixteen bytes of the fixed SIP namespace UUID,
/// `a58587da-c93d-11e2-ae90-f4ea67801e29` (RFC 7989).
pub open spec fn namespace_sip() -> Seq<u8> {
    seq![
        0xa5u8,
        0x85u8,
        0x87u8,
        0xdau8,
        0xc9u8,
        0x3du8,
        0x11u8,
        0xe2u8,
        0xaeu8,
        0x90u8,
        0xf4u8,
        0xeau8,
        0x67u8,
        0x80u8,
        0x1eu8,
        0x29u8,
    ]
}

/// What RFC 4122 version-5 name hashing returns for a namespace and a name:
/// a function of the two byte sequences alone.
pub uninterp spec fn v5_bytes(ns: Seq<u8>, name: Seq<u8>) -> Seq<u8>;

/// Relies on uuid::Uuid::new_v4: sixteen bytes from a cryptographically
/// acceptable random source, with the version nibble set to 4 and the
/// variant bits set to the RFC pattern; an entropy-source failure aborts
/// rather than returning.
#[verifier::external_body]
fn new_v4_bytes() -> (r: Vec<u8>)
    ensures
        r@.len() == 16,
        r@[6] >> 4u8 == 4u8,
        r@[8] >> 6u8 == 2u8,
{
    uuid::Uuid::new_v4().as_bytes().to_vec()
}

/// Relies on uuid::Uuid::new_v5: the RFC 4122 version-5 digest of the
/// namespace bytes and the name bytes — a function of the two sequences
/// alone — with the version nibble set to 5 and the variant bits set to the
/// RFC pattern.
#[verifier::external_body]
fn new_v5_bytes(ns: &Vec<u8>, name: &[u8]) -> (r: Vec<u8>)
    requires
        ns@.len() == 16,
    ensures
        r@ == v5_bytes(ns@, name@),
        r@.len() == 16,
        r@[6] >> 4u8 == 5u8,
        r@[8] >> 6u8 == 2u8,
{
    let mut ns_bytes = [0u8; 16];
    ns_bytes.copy_from_slice(ns.as_slice());
    let digest = uuid::Uuid::new_v5(&uuid::Uuid::from_bytes(ns_bytes), name);
    digest.as_bytes().to_vec()
}

/// The fixed SIP namespace as owned bytes.
fn namespace_sip_vec() -> (r: Vec<u8>)
    ensures
        r@ == namespace_sip(),
{
    let mut ns: Vec<u8> = Vec::new();
    ns.push(0xa5u8);
    ns.push(0x85u8);
    ns.push(0x87u8);
    ns.push(0xdau8);
    ns.push(0xc9u8);
    ns.push(0x3du8);
    ns.push(0x11u8);
    ns.push(0xe2u8);
    ns.push(0xaeu8);
    ns.push(0x90u8);
    ns.push(0xf4u8);
    ns.push(0xeau8);
    ns.push(0x67u8);
    ns.push(0x80u8);
    ns.push(0x1eu8);
    ns.push(0x29u8);
    proof {
        assert(ns@ =~= namespace_sip());
    }
    ns
}

/// Generate a new version-4 UUID with random data: the version nibble is 4,
/// the variant bits follow the RFC pattern, and the value is never nil. The
/// caller owns the value and releases it with [`crate::ruuid_destroy`].
pub fn ruuid_generate_version_4() -> (r: Uuid)
    ensures
        r@.len() == 16,
        r@[6] >> 4u8 == 4u8,
        r@[8] >> 6u8 == 2u8,
        !spec_is_nil(r@),
{
    let bytes = new_v4_bytes();
    proof {
        lemma_versioned_not_nil(bytes@);
    }
    uuid_from_bytes(bytes)
}

/// Generate a new version-5 UUID from the fixed SIP namespace and the given
/// name bytes: the result is the RFC 4122 name digest of that pair — so the
/// same name always yields the same value — with the version nibble 5 and
/// the RFC variant bits, and it is never nil. The caller owns the value and
/// releases it with [`crate::ruuid_destroy`].
pub fn ruuid_generate_version_5_sip(name: &[u8]) -> (r: Uuid)
    ensures
        r@ == v5_bytes(namespace_sip(), name@),
        r@.len() == 16,
        r@[6] >> 4u8 == 5u8,
        r@[8] >> 6u8 == 2u8,
        !spec_is_nil(r@),
{
    let ns = namespace_sip_vec();
    let bytes = new_v5_bytes(&ns, name);
    proof {
        lemma_versioned_not_nil(bytes@);
    }
    uuid_from_bytes(bytes)
}

} // verus!
