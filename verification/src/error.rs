//! Errors that the stake program returns.
use vstd::prelude::*;

verus! {

/// The runtime's error codes that the stake program can return.
#[derive(Clone, Copy, Debug, PartialEq, Eq, Structural)]
pub enum ProgramError {
    Custom(u32),
    InvalidArgument,
    InvalidInstructionData,
    InvalidAccountData,
    AccountDataTooSmall,
    InsufficientFunds,
    IncorrectProgramId,
    MissingRequiredSignature,
    NotEnoughAccountKeys,
    InvalidAccountOwner,
    ArithmeticOverflow,
    UnsupportedSysvar,
}

/// Errors specific to the stake program.
#[derive(Clone, Copy, Debug, PartialEq, Eq, Structural)]
pub enum StakeError {
    InvalidAuthorization,
    InsufficientFunds,
    InsufficientStake,
    AlreadyDeactivated,
    InsufficientDelegation,
    VoteAddressMismatch,
    MergeMismatch,
    LockupInForce,
    InsufficientReferenceVotes,
    MinimumDelinquentEpochsForDeactivationNotMet,
    TooSoonToRedelegate,
}

/// The runtime error that each stake error is reported as.
pub open spec fn spec_to_program_error(err: StakeError) -> ProgramError {
    match err {
        StakeError::InvalidAuthorization => ProgramError::MissingRequiredSignature,
        StakeError::InsufficientFunds => ProgramError::InsufficientFunds,
        StakeError::InsufficientStake => ProgramError::Custom(0x10),
        StakeError::AlreadyDeactivated => ProgramError::Custom(0x11),
        StakeError::InsufficientDelegation => ProgramError::Custom(0x12),
        StakeError::VoteAddressMismatch => ProgramError::Custom(0x13),
        StakeError::MergeMismatch => ProgramError::Custom(0x14),
        StakeError::LockupInForce => ProgramError::Custom(0x15),
        StakeError::InsufficientReferenceVotes => ProgramError::Custom(0x16),
        StakeError::MinimumDelinquentEpochsForDeactivationNotMet => ProgramError::Custom(0x17),
        StakeError::TooSoonToRedelegate => ProgramError::Custom(0x18),
    }
}

/// Maps a stake error to the runtime error that reports it.
pub fn to_program_error(err: StakeError) -> (r: ProgramError)
    ensures
        r == spec_to_program_error(err),
{
    match err {
        StakeError::InvalidAuthorization => ProgramError::MissingRequiredSignature,
        StakeError::InsufficientFunds => ProgramError::InsufficientFunds,
        StakeError::InsufficientStake => ProgramError::Custom(0x10),
        StakeError::AlreadyDeactivated => ProgramError::Custom(0x11),
        StakeError::InsufficientDelegation => ProgramError::Custom(0x12),
        StakeError::VoteAddressMismatch => ProgramError::Custom(0x13),
        StakeError::MergeMismatch => ProgramError::Custom(0x14),
        StakeError::LockupInForce => ProgramError::Custom(0x15),
        StakeError::InsufficientReferenceVotes => ProgramError::Custom(0x16),
        StakeError::MinimumDelinquentEpochsForDeactivationNotMet => ProgramError::Custom(0x17),
        StakeError::TooSoonToRedelegate => ProgramError::Custom(0x18),
    }
}

/// Two different stake errors are never reported with the same runtime error.
pub proof fn lemma_to_program_error_injective(a: StakeError, b: StakeError)
    requires
        spec_to_program_error(a) == spec_to_program_error(b),
    ensures
        a == b,
{
}

} // verus!
