//! Parameters of the stake program.
use vstd::prelude::*;

verus! {

/// The most signers that an instruction is considered with.
pub const MAXIMUM_SIGNERS: usize = 32;

/// Whether the minimum delegation is raised to one SOL.
pub const FEATURE_STAKE_RAISE_MINIMUM_DELEGATION_TO_1_SOL: bool = false;

/// Lamports in one SOL.
pub const LAMPORTS_PER_SOL: u64 = 1_000_000_000;

/// Bit pattern of the IEEE-754 double 0.25, the default warmup/cooldown rate,
/// as it is stored in a delegation.
pub const DEFAULT_WARMUP_COOLDOWN_RATE_BITS: u64 = 0x3FD0_0000_0000_0000;

/// Epochs without a vote after which a stake's vote account counts as delinquent.
pub const MINIMUM_DELINQUENT_EPOCHS_FOR_DEACTIVATION: u64 = 5;

/// Maximum length of the seed of an address derived with a seed.
pub const MAX_SEED_LEN: usize = 32;

} // verus!
