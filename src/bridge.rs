//! Default settings handed to embedding layers as plain data.

use vstd::prelude::*;

verus! {

/// Consensus-level audit settings.
#[derive(Clone, Copy, Debug)]
pub struct ConsensusConfig {
    pub sample_size: usize,
    /// Confidence threshold in millionths.
    pub min_confidence_ppm: u64,
    pub fraud_window_blocks: u64,
    pub min_validator_stake: u128,
    /// Penalty for a false pass, in basis points.
    pub false_pass_penalty_bps: u64,
}

/// Chain-level block settings.
#[derive(Clone, Copy, Debug)]
pub struct BlockchainConfig {
    pub block_time_secs: u64,
    pub max_block_size: usize,
    pub gas_limit: u64,
}

/// The default consensus settings.
pub fn default_consensus_config() -> (r: ConsensusConfig)
    ensures
        r.sample_size == 100,
        r.min_confidence_ppm == 950_000,
        r.fraud_window_blocks == 1000,
        r.min_validator_stake == 100_000,
        r.false_pass_penalty_bps == 1000,
{
    ConsensusConfig {
        sample_size: 100,
        min_confidence_ppm: 950_000,
        fraud_window_blocks: 1000,
        min_validator_stake: 100_000,
        false_pass_penalty_bps: 1000,
    }
}

/// The default block settings.
pub fn default_blockchain_config() -> (r: BlockchainConfig)
    ensures
        r.block_time_secs == 12,
        r.max_block_size == 1_000_000,
        r.gas_limit == 30_000_000,
{
    BlockchainConfig { block_time_secs: 12, max_block_size: 1_000_000, gas_limit: 30_000_000 }
}

} // verus!
