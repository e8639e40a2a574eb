//! Probabilistic auditing of large computed outputs: reproducible challenge
//! generation, Merkle-path checks of sampled elements, confidence scoring, and
//! the signing-based randomness source that seeds the challenges.

pub mod digest;
pub mod hash;
pub mod signature;
pub mod vrf;
pub mod bridge;
pub mod merkle;
pub mod sampling;
pub mod popc;
