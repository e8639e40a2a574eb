//! Challenges, worker proofs and their validation.

use vstd::prelude::*;
use std::collections::HashMap;
use crate::digest::{H256, concat_hashes, sha256};
use crate::merkle::{climb, merkle_accepts, path_root, path_view};
use crate::sampling::{
    build_stratified_plan, build_uniform_plan, draw_in_ranges, lemma_stratified_plan,
    seeded_draws, stratified_plan, uniform_plan,
};

verus! {

/// Confidence values are fractions expressed in millionths.
pub const CONFIDENCE_SCALE: u64 = 1_000_000;

/// How challenges are drawn and how much of a challenge must verify.
#[derive(Clone, Copy, Debug)]
pub struct PoPCConfig {
    /// How many indices a challenge asks for (at most the output size).
    pub sample_size: usize,
    /// The confidence, in millionths, at or above which a proof passes.
    pub min_confidence_ppm: u64,
    /// Draw within contiguous strata first, rather than over the whole output.
    pub stratified_sampling: bool,
    pub adaptive_escalation: bool,
}

impl Default for PoPCConfig {
    fn default() -> (r: PoPCConfig)
        ensures
            r.sample_size == 50,
            r.min_confidence_ppm == 990_000,
            r.stratified_sampling,
            !r.adaptive_escalation,
    {
        PoPCConfig {
            sample_size: 50,
            min_confidence_ppm: 990_000,
            stratified_sampling: true,
            adaptive_escalation: false,
        }
    }
}

/// The indices a worker must reveal for one job, and the seed they came from.
#[derive(Clone, Debug)]
pub struct Challenge {
    pub job_id: String,
    pub samples: Vec<usize>,
    pub vrf_seed: H256,
}

/// A worker's answer: the element bytes and authentication path of each
/// revealed index, and the root it committed to.
#[derive(Clone, Debug)]
pub struct Proof {
    pub job_id: String,
    pub samples: HashMap<usize, Vec<u8>>,
    pub merkle_paths: HashMap<usize, Vec<H256>>,
    pub output_root: H256,
}

/// Why one challenged index failed to verify.
#[derive(Clone, Copy, Debug, PartialEq, Eq, Structural)]
pub enum SampleError {
    MissingSample(usize),
    MissingMerklePath(usize),
    InvalidMerkleProof(usize),
}

impl SampleError {
    /// The challenged index that failed.
    pub fn index(&self) -> (r: usize)
        ensures
            r == match *self {
                SampleError::MissingSample(i) => i,
                SampleError::MissingMerklePath(i) => i,
                SampleError::InvalidMerkleProof(i) => i,
            },
    {
        match *self {
            SampleError::MissingSample(i) => i,
            SampleError::MissingMerklePath(i) => i,
            SampleError::InvalidMerkleProof(i) => i,
        }
    }
}

/// The verdict on one proof.
#[derive(Clone, Debug)]
pub struct ValidationResult {
    pub job_id: String,
    pub passed: bool,
    pub samples_verified: usize,
    pub samples_total: usize,
    /// `samples_verified / samples_total` in millionths, rounded down; 0 when
    /// nothing was challenged.
    pub confidence_ppm: u64,
    /// One entry per failed index, in challenge order.
    pub errors: Vec<SampleError>,
}

/// Issues challenges and judges proofs under one configuration.
pub struct Validator {
    pub config: PoPCConfig,
}

/// How many indices a challenge over `n` elements asks for.
pub open spec fn effective_sample_size(config: PoPCConfig, n: usize) -> nat {
    if config.sample_size <= n {
        config.sample_size as nat
    } else {
        n as nat
    }
}

/// The ranges a challenge over `n` elements draws from, in order.
pub open spec fn challenge_plan(config: PoPCConfig, n: usize) -> Seq<(usize, usize)> {
    let count = effective_sample_size(config, n);
    if config.stratified_sampling {
        stratified_plan(count, n)
    } else {
        uniform_plan(count, n)
    }
}

/// The indices of a challenge over `n` elements drawn from `seed`.
pub open spec fn challenge_samples(config: PoPCConfig, n: usize, seed: Seq<u8>) -> Seq<usize> {
    seeded_draws(seed, challenge_plan(config, n))
}

/// The outcome of checking one challenged index against a proof.
pub open spec fn sample_check(proof: Proof, index: usize) -> Result<(), SampleError> {
    if !proof.samples@.contains_key(index) {
        Err(SampleError::MissingSample(index))
    } else if !proof.merkle_paths@.contains_key(index) {
        Err(SampleError::MissingMerklePath(index))
    } else if !merkle_accepts(
        proof.samples@[index]@,
        path_view(proof.merkle_paths@[index]@),
        index as nat,
        proof.output_root@,
    ) {
        Err(SampleError::InvalidMerkleProof(index))
    } else {
        Ok(())
    }
}

/// The errors of the failed indices of `samples`, in order.
pub open spec fn failures(proof: Proof, samples: Seq<usize>) -> Seq<SampleError>
    decreases samples.len(),
{
    if samples.len() == 0 {
        Seq::empty()
    } else {
        let prev = failures(proof, samples.drop_last());
        match sample_check(proof, samples.last()) {
            Ok(_) => prev,
            Err(e) => prev.push(e),
        }
    }
}

/// How many entries of `samples` verify; repeated indices count each time.
pub open spec fn verified_count(proof: Proof, samples: Seq<usize>) -> nat
    decreases samples.len(),
{
    if samples.len() == 0 {
        0
    } else {
        let prev = verified_count(proof, samples.drop_last());
        match sample_check(proof, samples.last()) {
            Ok(_) => prev + 1,
            Err(_) => prev,
        }
    }
}

/// `verified / total` in millionths, rounded down, and 0 when `total` is 0.
pub open spec fn confidence_of(verified: nat, total: nat) -> nat {
    if total == 0 {
        0
    } else {
        verified * (CONFIDENCE_SCALE as nat) / total
    }
}

impl Validator {
    pub fn new(config: PoPCConfig) -> (r: Validator)
        ensures
            r.config == config,
    {
        Validator { config }
    }

    /// Draws the indices to audit in an output of `output_size` elements. The
    /// indices depend on the configuration, the size and the seed, not on `job_id`.
    pub fn generate_challenge(&self, job_id: String, output_size: usize, vrf_seed: H256) -> (r:
        Challenge)
        ensures
            r.job_id == job_id,
            r.vrf_seed == vrf_seed,
            r.samples@ == challenge_samples(self.config, output_size, vrf_seed@),
            r.samples@.len() == effective_sample_size(self.config, output_size),
            forall|k: int|
                0 <= k < r.samples@.len() ==> challenge_plan(self.config, output_size)[k].0
                    <= #[trigger] r.samples@[k] < challenge_plan(self.config, output_size)[k].1,
            forall|k: int| 0 <= k < r.samples@.len() ==> #[trigger] r.samples@[k] < output_size,
    {
        let sample_size = if self.config.sample_size <= output_size {
            self.config.sample_size
        } else {
            output_size
        };
        proof {
            lemma_stratified_plan(sample_size as nat, output_size);
        }
        let samples = if self.config.stratified_sampling {
            self.generate_stratified_samples(&vrf_seed.bytes, output_size, sample_size)
        } else {
            self.generate_random_samples(&vrf_seed.bytes, output_size, sample_size)
        };
        Challenge { job_id, samples, vrf_seed }
    }

    fn generate_random_samples(&self, seed: &[u8; 32], output_size: usize, sample_size: usize) -> (r:
        Vec<usize>)
        requires
            sample_size <= output_size,
        ensures
            r@ == seeded_draws(seed@, uniform_plan(sample_size as nat, output_size)),
            r@.len() == sample_size,
            forall|k: int| 0 <= k < r@.len() ==> #[trigger] r@[k] < output_size,
    {
        let plan = build_uniform_plan(sample_size, output_size);
        draw_in_ranges(seed, &plan)
    }

    fn generate_stratified_samples(&self, seed: &[u8; 32], output_size: usize, sample_size: usize) -> (r:
        Vec<usize>)
        requires
            sample_size <= output_size,
        ensures
            r@ == seeded_draws(seed@, stratified_plan(sample_size as nat, output_size)),
            r@.len() == sample_size,
            forall|k: int|
                0 <= k < r@.len() ==> stratified_plan(sample_size as nat, output_size)[k].0
                    <= #[trigger] r@[k] < stratified_plan(sample_size as nat, output_size)[k].1,
    {
        proof {
            lemma_stratified_plan(sample_size as nat, output_size);
        }
        let plan = build_stratified_plan(sample_size, output_size);
        draw_in_ranges(seed, &plan)
    }

    /// Judges `proof` against every index of `challenge`, in order and counting
    /// repeats separately; passes when the confidence reaches the configured minimum.
    pub fn verify_proof(&self, challenge: &Challenge, proof: &Proof) -> (r: ValidationResult)
        ensures
            r.job_id@ == challenge.job_id@,
            r.samples_total == challenge.samples@.len(),
            r.samples_verified == verified_count(*proof, challenge.samples@),
            r.errors@ == failures(*proof, challenge.samples@),
            r.samples_verified + r.errors@.len() == r.samples_total,
            r.confidence_ppm == confidence_of(r.samples_verified as nat, r.samples_total as nat),
            r.passed == (r.confidence_ppm >= self.config.min_confidence_ppm),
    {
        let mut verified: usize = 0;
        let mut errors: Vec<SampleError> = Vec::new();
        let mut i: usize = 0;
        while i < challenge.samples.len()
            invariant
                i <= challenge.samples@.len(),
                verified == verified_count(*proof, challenge.samples@.subrange(0, i as int)),
                errors@ == failures(*proof, challenge.samples@.subrange(0, i as int)),
                verified + errors@.len() == i,
            decreases challenge.samples@.len() - i,
        {
            let idx = challenge.samples[i];
            let outcome = self.verify_sample(idx, proof);
            proof {
                let next = challenge.samples@.subrange(0, i as int + 1);
                assert(next.drop_last() =~= challenge.samples@.subrange(0, i as int));
                assert(next.last() == idx);
            }
            match outcome {
                Ok(_) => {
                    verified = verified + 1;
                },
                Err(e) => {
                    errors.push(e);
                },
            }
            i = i + 1;
        }
        assert(challenge.samples@.subrange(0, i as int) =~= challenge.samples@);
        let total = challenge.samples.len();
        let confidence_ppm = self.calculate_confidence(verified, total);
        let passed = confidence_ppm >= self.config.min_confidence_ppm;
        ValidationResult {
            job_id: challenge.job_id.clone(),
            passed,
            samples_verified: verified,
            samples_total: total,
            confidence_ppm,
            errors,
        }
    }

    /// Checks one challenged index: its data and path must both be present, and
    /// the path must lead from the data to the committed root.
    pub fn verify_sample(&self, index: usize, proof: &Proof) -> (r: Result<(), SampleError>)
        ensures
            r == sample_check(*proof, index),
    {
        let sample_data = match proof.samples.get(&index) {
            Some(d) => d,
            None => {
                return Err(SampleError::MissingSample(index));
            },
        };
        let merkle_path = match proof.merkle_paths.get(&index) {
            Some(p) => p,
            None => {
                return Err(SampleError::MissingMerklePath(index));
            },
        };
        if !Self::verify_merkle_proof(sample_data.as_slice(), merkle_path.as_slice(), index, proof.output_root) {
            return Err(SampleError::InvalidMerkleProof(index));
        }
        Ok(())
    }

    /// Checks that `data` is the leaf at `index` of the tree committed to by `root`,
    /// `path` holding the sibling of each node from the leaf upwards.
    pub fn verify_merkle_proof(data: &[u8], path: &[H256], index: usize, root: H256) -> (r: bool)
        ensures
            r == merkle_accepts(data@, path_view(path@), index as nat, root@),
    {
        let ghost full = path_view(path@);
        let mut current = sha256(data);
        let mut idx: usize = index;
        let mut i: usize = 0;
        assert(full.subrange(0, full.len() as int) =~= full);
        while i < path.len()
            invariant
                0 <= i <= path@.len(),
                full == path_view(path@),
                climb(current@, full.subrange(i as int, full.len() as int), idx as nat)
                    == path_root(data@, full, index as nat),
            decreases path@.len() - i,
        {
            let sibling = &path[i];
            let bytes = if idx % 2 == 0 {
                concat_hashes(&current, sibling)
            } else {
                concat_hashes(sibling, &current)
            };
            proof {
                let rest = full.subrange(i as int, full.len() as int);
                assert(rest[0] == sibling@);
                assert(rest.drop_first() =~= full.subrange(i as int + 1, full.len() as int));
            }
            current = sha256(bytes.as_slice());
            idx = idx / 2;
            i = i + 1;
        }
        assert(full.subrange(i as int, full.len() as int) =~= Seq::<Seq<u8>>::empty());
        current == root
    }

    /// `verified / total` in millionths, rounded down; 0 when `total` is 0.
    pub fn calculate_confidence(&self, verified: usize, total: usize) -> (r: u64)
        requires
            verified <= total,
        ensures
            r == confidence_of(verified as nat, total as nat),
            r <= CONFIDENCE_SCALE,
    {
        if total == 0 {
            return 0;
        }
        let v = verified as u128;
        let t = total as u128;
        assert(v * 1_000_000 <= t * 1_000_000) by (nonlinear_arith)
            requires
                v <= t,
        ;
        assert(v * 1_000_000 <= 0xffff_ffff_ffff_ffffu128 * 1_000_000) by (nonlinear_arith)
            requires
                v <= 0xffff_ffff_ffff_ffffu128,
        ;
        let q = v * 1_000_000 / t;
        assert(q <= 1_000_000) by (nonlinear_arith)
            requires
                q == (v * 1_000_000) as int / t as int,
                v <= t,
                t > 0,
        ;
        q as u64
    }
}


/// Two challenges drawn under the same configuration, output size and seed hold
/// the same samples in the same order, whatever their job ids.
pub proof fn lemma_challenge_deterministic(
    config: PoPCConfig,
    n: usize,
    seed: Seq<u8>,
    first: Seq<usize>,
    second: Seq<usize>,
)
    requires
        first == challenge_samples(config, n, seed),
        second == challenge_samples(config, n, seed),
    ensures
        first == second,
{
}

/// A challenge never asks for more indices than it was configured for, nor than
/// the output holds; over an empty output it asks for none.
pub proof fn lemma_challenge_size(config: PoPCConfig, n: usize)
    ensures
        challenge_plan(config, n).len() == effective_sample_size(config, n),
        effective_sample_size(config, n) <= config.sample_size,
        effective_sample_size(config, n) <= n,
        n == 0 ==> challenge_plan(config, n).len() == 0,
{
    lemma_stratified_plan(effective_sample_size(config, n), n);
}

} // verus!
