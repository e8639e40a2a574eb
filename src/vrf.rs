//! The randomness source that seeds challenges.
//!
//! The output for an input is the SHA3-256 hash of the secret key followed by
//! the input, and the proof is an Ed25519 signature on the input. Verification
//! checks the signature only: it does not tie the output to the proof, so a
//! valid signature can travel with an output that was not derived from it.

use vstd::prelude::*;
use crate::hash::{sha3_256, sha3_256_of};
use crate::signature::{
    ed25519_accepts, ed25519_public_of, ed25519_signature_of, generate_keypair, sign,
    verifying_key, verify,
};

verus! {

/// A holder of one secret key that proves outputs for inputs.
pub struct VRF {
    secret: [u8; 32],
}

impl VRF {
    /// The secret key's 32 bytes.
    pub closed spec fn secret_key(&self) -> Seq<u8> {
        self.secret@
    }

    /// A source with a freshly drawn secret key.
    pub fn new() -> (r: VRF) {
        VRF { secret: generate_keypair() }
    }

    /// A source holding the secret key `signing_key`.
    pub fn from_signing_key(signing_key: [u8; 32]) -> (r: VRF)
        ensures
            r.secret_key() == signing_key@,
    {
        VRF { secret: signing_key }
    }

    /// The proof (a 64-byte signature on `input`) and the 32-byte output for
    /// `input`, which depends on the secret key and `input` alone.
    pub fn prove(&self, input: &[u8]) -> (r: (Vec<u8>, [u8; 32]))
        ensures
            r.0@ == ed25519_signature_of(self.secret_key(), input@),
            r.0@.len() == 64,
            r.1@ == sha3_256_of(self.secret_key() + input@),
    {
        let mut keyed: Vec<u8> = Vec::new();
        let mut i: usize = 0;
        while i < 32
            invariant
                0 <= i <= 32,
                self.secret@.len() == 32,
                keyed@ == self.secret@.subrange(0, i as int),
            decreases 32 - i,
        {
            keyed.push(self.secret[i]);
            assert(keyed@ =~= self.secret@.subrange(0, i as int + 1));
            i = i + 1;
        }
        let mut j: usize = 0;
        while j < input.len()
            invariant
                0 <= j <= input@.len(),
                self.secret@.len() == 32,
                keyed@ == self.secret@ + input@.subrange(0, j as int),
            decreases input@.len() - j,
        {
            keyed.push(input[j]);
            assert(keyed@ =~= self.secret@ + input@.subrange(0, j as int + 1));
            j = j + 1;
        }
        assert(input@.subrange(0, input@.len() as int) =~= input@);
        let output = sha3_256(keyed.as_slice());
        let proof = sign(&self.secret, input);
        (proof, output)
    }

    /// Whether `proof` is a valid signature on `input` under `verifying_key`.
    /// The claimed output is not examined.
    pub fn verify(verifying_key: &[u8; 32], input: &[u8], proof: &[u8], output: &[u8; 32]) -> (r:
        bool)
        ensures
            r == (proof@.len() == 64 && ed25519_accepts(verifying_key@, input@, proof@)),
    {
        verify(verifying_key, input, proof)
    }

    /// The public key that checks this source's proofs.
    pub fn verifying_key(&self) -> (r: [u8; 32])
        ensures
            r@ == ed25519_public_of(self.secret_key()),
    {
        verifying_key(&self.secret)
    }
}

impl Default for VRF {
    fn default() -> (r: VRF) {
        VRF::new()
    }
}

} // verus!
