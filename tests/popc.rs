use popc_core::bridge::{default_blockchain_config, default_consensus_config};
use popc_core::digest::H256;

use popc_core::popc::{Challenge, PoPCConfig, Proof, SampleError, Validator};
use popc_core::sampling::isqrt;
use sha2::{Digest, Sha256};
use std::collections::HashMap;

fn h(bytes: &[u8]) -> H256 {
    let mut out = [0u8; 32];
    out.copy_from_slice(Sha256::digest(bytes).as_slice());
    H256::from_bytes(out)
}

fn parent(a: &H256, b: &H256) -> H256 {
    let mut buf = a.as_bytes().to_vec();
    buf.extend_from_slice(b.as_bytes());
    h(&buf)
}

// A perfect tree over the leaves; returns the root and each leaf's path.
fn build_tree(leaves: &[Vec<u8>]) -> (H256, Vec<Vec<H256>>) {
    let mut level: Vec<H256> = leaves.iter().map(|d| h(d)).collect();
    let mut paths: Vec<Vec<H256>> = vec![Vec::new(); leaves.len()];
    let mut width = 1usize;
    while level.len() > 1 {
        for (leaf, path) in paths.iter_mut().enumerate() {
            let pos = leaf / width;
            let sib = if pos % 2 == 0 { pos + 1 } else { pos - 1 };
            path.push(level[sib]);
        }
        level = level.chunks(2).map(|p| parent(&p[0], &p[1])).collect();
        width *= 2;
    }
    (level[0], paths)
}

fn seed(b: u8) -> H256 {
    H256::from_bytes([b; 32])
}

fn full_proof(n: usize) -> Proof {
    let leaves: Vec<Vec<u8>> = (0..n).map(|i| format!("element-{}", i).into_bytes()).collect();
    let (root, paths) = build_tree(&leaves);
    let mut samples = HashMap::new();
    let mut merkle_paths = HashMap::new();
    for i in 0..n {
        samples.insert(i, leaves[i].clone());
        merkle_paths.insert(i, paths[i].clone());
    }
    Proof { job_id: "job".to_string(), samples, merkle_paths, output_root: root }
}

fn config(sample_size: usize, min_confidence_ppm: u64, stratified: bool) -> PoPCConfig {
    PoPCConfig {
        sample_size,
        min_confidence_ppm,
        stratified_sampling: stratified,
        adaptive_escalation: false,
    }
}

#[test]
fn test_generate_challenge() {
    let config = PoPCConfig::default();
    let validator = Validator::new(config);
    let challenge =
        validator.generate_challenge("job-1".to_string(), 1000, H256::from_bytes(rand::random()));
    assert_eq!(challenge.samples.len(), 50);
}

#[test]
fn default_config_values() {
    let c = PoPCConfig::default();
    assert_eq!(c.sample_size, 50);
    assert_eq!(c.min_confidence_ppm, 990_000);
    assert!(c.stratified_sampling);
    assert!(!c.adaptive_escalation);
}

#[test]
fn challenge_is_deterministic() {
    let v = Validator::new(PoPCConfig::default());
    let a = v.generate_challenge("job-a".to_string(), 1000, seed(42));
    let b = v.generate_challenge("job-b".to_string(), 1000, seed(42));
    assert_eq!(a.samples, b.samples);
    assert_eq!(a.job_id, "job-a");
    assert_eq!(a.vrf_seed, seed(42));
    let u = Validator::new(config(30, 990_000, false));
    assert_eq!(
        u.generate_challenge("x".to_string(), 77, seed(1)).samples,
        u.generate_challenge("y".to_string(), 77, seed(1)).samples
    );
}

#[test]
fn different_seeds_give_different_challenges() {
    let v = Validator::new(PoPCConfig::default());
    let a = v.generate_challenge("j".to_string(), 1_000_000, seed(1));
    let b = v.generate_challenge("j".to_string(), 1_000_000, seed(2));
    assert_ne!(a.samples, b.samples);
}

#[test]
fn samples_stay_in_bounds() {
    for &stratified in &[true, false] {
        for &(size, n) in &[(50usize, 1000usize), (50, 7), (1, 1), (200, 3), (10, 10)] {
            let v = Validator::new(config(size, 990_000, stratified));
            let c = v.generate_challenge("j".to_string(), n, seed(9));
            assert_eq!(c.samples.len(), size.min(n));
            assert!(c.samples.iter().all(|&s| s < n));
        }
    }
}

#[test]
fn empty_output_gives_empty_challenge() {
    for &stratified in &[true, false] {
        let v = Validator::new(config(50, 990_000, stratified));
        assert!(v.generate_challenge("j".to_string(), 0, seed(3)).samples.is_empty());
    }
    let v = Validator::new(config(0, 990_000, true));
    assert!(v.generate_challenge("j".to_string(), 100, seed(3)).samples.is_empty());
}

#[test]
fn single_sample_stratified() {
    let v = Validator::new(config(1, 990_000, true));
    let c = v.generate_challenge("j".to_string(), 500, seed(4));
    assert_eq!(c.samples.len(), 1);
    assert!(c.samples[0] < 500);
}

#[test]
fn stratified_samples_fall_in_their_strata() {
    // 50 samples: 7 strata of 142 indices (the last runs to 1000), 7 draws
    // each, then one draw over the whole output.
    let v = Validator::new(PoPCConfig::default());
    let c = v.generate_challenge("j".to_string(), 1000, seed(5));
    assert_eq!(c.samples.len(), 50);
    for stratum in 0..7 {
        let start = stratum * 142;
        let end = if stratum == 6 { 1000 } else { start + 142 };
        for k in 0..7 {
            let s = c.samples[stratum * 7 + k];
            assert!(start <= s && s < end);
        }
    }
    assert!(c.samples[49] < 1000);
}

#[test]
fn integer_square_root() {
    assert_eq!(isqrt(0), 0);
    assert_eq!(isqrt(1), 1);
    assert_eq!(isqrt(3), 1);
    assert_eq!(isqrt(4), 2);
    assert_eq!(isqrt(50), 7);
    assert_eq!(isqrt(99), 9);
    assert_eq!(isqrt(100), 10);
}

#[test]
fn merkle_round_trip_over_eight_leaves() {
    let leaves: Vec<Vec<u8>> = (0..8u8).map(|i| vec![i, i + 1, i + 2]).collect();
    let (root, paths) = build_tree(&leaves);
    for i in 0..8 {
        assert!(Validator::verify_merkle_proof(&leaves[i], &paths[i], i, root));
    }
    for flipped in 0..8 {
        for byte in 0..3 {
            let mut bad = leaves[flipped].clone();
            bad[byte] ^= 0xff;
            assert!(!Validator::verify_merkle_proof(&bad, &paths[flipped], flipped, root));
            for other in 0..8 {
                if other != flipped {
                    assert!(Validator::verify_merkle_proof(&leaves[other], &paths[other], other, root));
                }
            }
        }
    }
}

#[test]
fn merkle_rejects_wrong_index_and_path_length() {
    let leaves: Vec<Vec<u8>> = (0..4u8).map(|i| vec![i]).collect();
    let (root, paths) = build_tree(&leaves);
    assert!(!Validator::verify_merkle_proof(&leaves[1], &paths[1], 0, root));
    assert!(!Validator::verify_merkle_proof(&leaves[1], &paths[1][..1], 1, root));
}

#[test]
fn merkle_empty_path_compares_leaf_hash() {
    assert!(Validator::verify_merkle_proof(b"abc", &[], 0, h(b"abc")));
    assert!(!Validator::verify_merkle_proof(b"abc", &[], 0, H256::from_bytes(*b"abcabcabcabcabcabcabcabcabcabcab")));
    assert_eq!(
        h(b"abc").as_bytes()[..4],
        [0xba, 0x78, 0x16, 0xbf]
    );
}

#[test]
fn empty_challenge_has_zero_confidence() {
    let v = Validator::new(config(50, 0, true));
    let challenge = Challenge { job_id: "j".to_string(), samples: vec![], vrf_seed: seed(0) };
    let r = v.verify_proof(&challenge, &full_proof(4));
    assert_eq!(r.samples_total, 0);
    assert_eq!(r.samples_verified, 0);
    assert_eq!(r.confidence_ppm, 0);
    assert!(r.errors.is_empty());
    assert!(r.passed);
    assert_eq!(v.calculate_confidence(0, 0), 0);
}

#[test]
fn one_missing_sample_among_ten() {
    let v = Validator::new(config(10, 950_000, true));
    let mut proof = full_proof(16);
    proof.samples.remove(&3);
    let challenge = Challenge {
        job_id: "job-1".to_string(),
        samples: vec![0, 1, 2, 3, 4, 5, 6, 7, 8, 9],
        vrf_seed: seed(0),
    };
    let r = v.verify_proof(&challenge, &proof);
    assert_eq!(r.errors.len(), 1);
    assert_eq!(r.errors[0], SampleError::MissingSample(3));
    assert_eq!(r.samples_verified, 9);
    assert_eq!(r.samples_total, 10);
    assert_eq!(r.confidence_ppm, 900_000);
    assert!(!r.passed);
    assert_eq!(r.job_id, "job-1");
}

#[test]
fn full_proof_passes_generated_challenge() {
    let v = Validator::new(config(20, 990_000, true));
    let challenge = v.generate_challenge("job-2".to_string(), 64, seed(8));
    let r = v.verify_proof(&challenge, &full_proof(64));
    assert_eq!(r.samples_verified, 20);
    assert_eq!(r.confidence_ppm, 1_000_000);
    assert!(r.passed);
}

#[test]
fn each_error_kind_is_reported_in_order() {
    let v = Validator::new(config(4, 500_000, false));
    let mut proof = full_proof(8);
    proof.samples.remove(&1);
    proof.merkle_paths.remove(&2);
    proof.samples.insert(5, b"forged".to_vec());
    let challenge = Challenge {
        job_id: "j".to_string(),
        samples: vec![5, 1, 2, 0, 0, 1],
        vrf_seed: seed(0),
    };
    let r = v.verify_proof(&challenge, &proof);
    assert_eq!(
        r.errors,
        vec![
            SampleError::InvalidMerkleProof(5),
            SampleError::MissingSample(1),
            SampleError::MissingMerklePath(2),
            SampleError::MissingSample(1),
        ]
    );
    assert_eq!(r.errors[2].index(), 2);
    assert_eq!(r.samples_verified, 2);
    assert_eq!(r.samples_total, 6);
    assert_eq!(r.confidence_ppm, 333_333);
    assert!(!r.passed);
}

#[test]
fn pass_threshold_is_inclusive() {
    let v = Validator::new(config(4, 750_000, false));
    let mut proof = full_proof(4);
    proof.samples.remove(&0);
    let challenge =
        Challenge { job_id: "j".to_string(), samples: vec![0, 1, 2, 3], vrf_seed: seed(0) };
    let r = v.verify_proof(&challenge, &proof);
    assert_eq!(r.confidence_ppm, 750_000);
    assert!(r.passed);
}

#[test]
fn confidence_rounds_down() {
    let v = Validator::new(PoPCConfig::default());
    assert_eq!(v.calculate_confidence(1, 3), 333_333);
    assert_eq!(v.calculate_confidence(2, 3), 666_666);
    assert_eq!(v.calculate_confidence(9, 10), 900_000);
    assert_eq!(v.calculate_confidence(5, 5), 1_000_000);
}

#[test]
fn bridge_defaults() {
    let c = default_consensus_config();
    assert_eq!(c.sample_size, 100);
    assert_eq!(c.min_confidence_ppm, 950_000);
    assert_eq!(c.fraud_window_blocks, 1000);
    assert_eq!(c.min_validator_stake, 100_000);
    assert_eq!(c.false_pass_penalty_bps, 1000);
    let b = default_blockchain_config();
    assert_eq!(b.block_time_secs, 12);
    assert_eq!(b.max_block_size, 1_000_000);
    assert_eq!(b.gas_limit, 30_000_000);
}
