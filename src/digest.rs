//! 32-byte digests and the SHA-256 hash over which authentication paths are built.

use vstd::prelude::*;

verus! {

/// A 32-byte hash value (a Merkle node, a root, or a seed).
#[derive(Clone, Copy, Debug)]
pub struct H256 {
    pub bytes: [u8; 32],
}

impl View for H256 {
    type V = Seq<u8>;

    open spec fn view(&self) -> Seq<u8> {
        self.bytes@
    }
}

impl H256 {
    /// Wraps 32 raw bytes.
    pub fn from_bytes(bytes: [u8; 32]) -> (r: H256)
        ensures
            r@ == bytes@,
    {
        H256 { bytes }
    }

    /// The 32 bytes of the hash.
    pub fn as_bytes(&self) -> (r: &[u8; 32])
        ensures
            r@ == self@,
    {
        &self.bytes
    }
}

impl PartialEq for H256 {
    fn eq(&self, other: &H256) -> (r: bool) {
        let mut i: usize = 0;
        while i < 32
            invariant
                0 <= i <= 32,
                self.bytes@.len() == 32,
                other.bytes@.len() == 32,
                forall|j: int| 0 <= j < i ==> self.bytes@[j] == other.bytes@[j],
            decreases 32 - i,
        {
            if self.bytes[i] != other.bytes[i] {
                return false;
            }
            i = i + 1;
        }
        assert(self.bytes@ =~= other.bytes@);
        true
    }
}

impl vstd::std_specs::cmp::PartialEqSpecImpl for H256 {
    open spec fn obeys_eq_spec() -> bool {
        true
    }

    open spec fn eq_spec(&self, other: &H256) -> bool {
        self.bytes@ == other.bytes@
    }
}

impl Eq for H256 {
}

/// What SHA-256 gives for a byte string.
pub uninterp spec fn sha256_of(data: Seq<u8>) -> Seq<u8>;

/// Relies on `sha2::Sha256::digest`: the digest of `data`, 32 bytes long.
#[verifier::external_body]
pub(crate) fn sha256(data: &[u8]) -> (r: H256)
    ensures
        r@ == sha256_of(data@),
{
    let out = <sha2::Sha256 as sha2::Digest>::digest(data);
    let mut bytes = [0u8; 32];
    bytes.copy_from_slice(out.as_slice());
    H256 { bytes }
}

/// The bytes of `a` followed by the bytes of `b`.
pub fn concat_hashes(a: &H256, b: &H256) -> (r: Vec<u8>)
    ensures
        r@ == a@ + b@,
{
    let mut out: Vec<u8> = Vec::with_capacity(64);
    let mut i: usize = 0;
    while i < 32
        invariant
            0 <= i <= 32,
            a.bytes@.len() == 32,
            out@ == a@.subrange(0, i as int),
        decreases 32 - i,
    {
        out.push(a.bytes[i]);
        assert(out@ =~= a@.subrange(0, i as int + 1));
        i = i + 1;
    }
    assert(out@ =~= a@);
    let mut j: usize = 0;
    while j < 32
        invariant
            0 <= j <= 32,
            a.bytes@.len() == 32,
            b.bytes@.len() == 32,
            out@ == a@ + b@.subrange(0, j as int),
        decreases 32 - j,
    {
        out.push(b.bytes[j]);
        assert(out@ =~= a@ + b@.subrange(0, j as int + 1));
        j = j + 1;
    }
    assert(b@.subrange(0, 32) =~= b@);
    out
}

} // verus!
