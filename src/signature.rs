//! Ed25519 signatures over secret keys held as their 32 seed bytes.

use vstd::prelude::*;

verus! {

/// The Ed25519 signature that the secret key `secret` makes on `message`
/// (Ed25519 signing is deterministic).
pub uninterp spec fn ed25519_signature_of(secret: Seq<u8>, message: Seq<u8>) -> Seq<u8>;

/// The Ed25519 public key that belongs to the secret key `secret`.
pub uninterp spec fn ed25519_public_of(secret: Seq<u8>) -> Seq<u8>;

/// Whether `signature` is a valid Ed25519 signature on `message` under the
/// encoded public key `public`.
pub uninterp spec fn ed25519_accepts(public: Seq<u8>, message: Seq<u8>, signature: Seq<u8>) -> bool;

/// Signs `message` with the secret key `signing_key`; the signature is 64 bytes.
/// Relies on `ed25519_dalek::SigningKey::from_bytes` and its `Signer::sign`.
#[verifier::external_body]
pub fn sign(signing_key: &[u8; 32], message: &[u8]) -> (r: Vec<u8>)
    ensures
        r@ == ed25519_signature_of(signing_key@, message@),
        r@.len() == 64,
{
    let key = ed25519_dalek::SigningKey::from_bytes(signing_key);
    ed25519_dalek::Signer::sign(&key, message).to_bytes().to_vec()
}

/// The public key of the secret key `signing_key`. Relies on
/// `ed25519_dalek::SigningKey::verifying_key` and `VerifyingKey::to_bytes`.
#[verifier::external_body]
pub fn verifying_key(signing_key: &[u8; 32]) -> (r: [u8; 32])
    ensures
        r@ == ed25519_public_of(signing_key@),
{
    ed25519_dalek::SigningKey::from_bytes(signing_key).verifying_key().to_bytes()
}

/// A fresh secret key from the thread's random generator. Relies on
/// `rand::random`; nothing is known of the bytes.
#[verifier::external_body]
pub fn generate_keypair() -> (r: [u8; 32]) {
    rand::random::<[u8; 32]>()
}

/// Relies on `ed25519_dalek::VerifyingKey::from_bytes` (an encoding that is no
/// curve point is refused) and its `Verifier::verify` on a 64-byte signature.
#[verifier::external_body]
fn ed25519_check(public: &[u8; 32], message: &[u8], signature: &[u8]) -> (r: bool)
    requires
        signature@.len() == 64,
    ensures
        r == ed25519_accepts(public@, message@, signature@),
{
    let key = match ed25519_dalek::VerifyingKey::from_bytes(public) {
        Ok(k) => k,
        Err(_) => return false,
    };
    let mut bytes = [0u8; 64];
    bytes.copy_from_slice(signature);
    let sig = ed25519_dalek::Signature::from_bytes(&bytes);
    ed25519_dalek::Verifier::verify(&key, message, &sig).is_ok()
}

/// Whether `signature` is a valid signature on `message` under `verifying_key`;
/// anything but 64 bytes is refused.
pub fn verify(verifying_key: &[u8; 32], message: &[u8], signature: &[u8]) -> (r: bool)
    ensures
        r == (signature@.len() == 64 && ed25519_accepts(verifying_key@, message@, signature@)),
{
    if signature.len() != 64 {
        return false;
    }
    ed25519_check(verifying_key, message, signature)
}

} // verus!
