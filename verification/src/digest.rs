//! BLAKE3 digests used for scope identities, request fingerprints and stream
//! identity fingerprints.
use vstd::prelude::*;

verus! {

/// Byte `i` of the BLAKE3 hash of `input` (`blake3::hash`).
pub uninterp spec fn blake3_hash_byte(input: Seq<u8>, i: int) -> u8;

/// Byte `i` of the key that BLAKE3 derives from `material` under `context`
/// (`blake3::derive_key`).
pub uninterp spec fn blake3_derived_byte(context: Seq<char>, material: Seq<u8>, i: int) -> u8;

/// The 32-byte BLAKE3 hash of `input`.
pub open spec fn blake3_digest(input: Seq<u8>) -> Seq<u8> {
    Seq::new(32, |i: int| blake3_hash_byte(input, i))
}

/// The 32-byte key BLAKE3 derives from `material` under `context`.
pub open spec fn blake3_derived(context: Seq<char>, material: Seq<u8>) -> Seq<u8> {
    Seq::new(32, |i: int| blake3_derived_byte(context, material, i))
}

/// Calls `blake3::hash` and returns the raw 32 digest bytes.
/// Trusted: byte `i` of the result is `blake3_hash_byte(input, i)`; BLAKE3
/// itself is not modelled.
#[verifier::external_body]
pub(crate) fn blake3_hash(input: &[u8]) -> (digest: [u8; 32])
    ensures
        forall|i: int| 0 <= i < 32 ==> #[trigger] digest@[i] == blake3_hash_byte(input@, i),
{
    *blake3::hash(input).as_bytes()
}

/// Calls `blake3::derive_key`, which the crate documents as equal to hashing
/// `material` with a `Hasher::new_derive_key(context)`.
/// Trusted: byte `i` of the result is `blake3_derived_byte(context, material, i)`.
#[verifier::external_body]
pub(crate) fn blake3_derive_key(context: &str, material: &[u8]) -> (key: [u8; 32])
    ensures
        forall|i: int| 0 <= i < 32 ==> #[trigger] key@[i] == blake3_derived_byte(context@, material@, i),
{
    blake3::derive_key(context, material)
}

} // verus!
