//! General-purpose 256-bit hash functions.

use vstd::prelude::*;

verus! {

/// What SHA3-256 gives for a byte string.
pub uninterp spec fn sha3_256_of(data: Seq<u8>) -> Seq<u8>;

/// What Keccak-256 (the pre-standard SHA-3 padding) gives for a byte string.
pub uninterp spec fn keccak256_of(data: Seq<u8>) -> Seq<u8>;

/// The SHA3-256 digest of `data`. Relies on `sha3::Sha3_256::digest`.
#[verifier::external_body]
pub fn sha3_256(data: &[u8]) -> (r: [u8; 32])
    ensures
        r@ == sha3_256_of(data@),
{
    let out = <sha3::Sha3_256 as sha3::Digest>::digest(data);
    let mut bytes = [0u8; 32];
    bytes.copy_from_slice(out.as_slice());
    bytes
}

/// The Keccak-256 digest of `data`. Relies on `sha3::Keccak256::digest`.
#[verifier::external_body]
pub fn keccak256(data: &[u8]) -> (r: [u8; 32])
    ensures
        r@ == keccak256_of(data@),
{
    let out = <sha3::Keccak256 as sha3::Digest>::digest(data);
    let mut bytes = [0u8; 32];
    bytes.copy_from_slice(out.as_slice());
    bytes
}

} // verus!
