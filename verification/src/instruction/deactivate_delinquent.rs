//! `DeactivateDelinquent`: deactivate a stake whose vote account stopped voting.
use vstd::prelude::*;

use crate::bytes::{le_u32_at, le_u64_at, read_u32_le, read_u64_le};
use crate::error::{spec_to_program_error, to_program_error, ProgramError, StakeError};
use crate::helpers::constant::MINIMUM_DELINQUENT_EPOCHS_FOR_DEACTIVATION;
use crate::helpers::utils::{get_stake_state, sat_sub, set_stake_state_at, spec_get_stake_state};
use crate::instruction::deactivate::spec_deactivate;
use crate::instruction::{lemma_store_keeps_lamports, spec_store};
use crate::pubkey::{pubkey_eq, DEFAULT_PUBKEY};
use crate::state::account_info::{
    same_layout, states, total_lamports, AccountInfo, AccountState,
};
use crate::state::delegation::{Delegation, Stake};
use crate::state::stake_state_v2::{spec_deserialize, StakeStateV2};
use crate::sysvars::Clock;
use crate::vote_state::vote_program_id;

verus! {

/// Whether the vote account data (a `u32` count, then 24-byte entries whose
/// first word is the epoch) shows a vote in each of the last `n` epochs up to
/// `current_epoch`: the newest entry for `current_epoch`, the one before for
/// the epoch before, and so on. `InvalidAccountData` for data without a count,
/// or whose newest entry lies beyond the data.
pub open spec fn spec_acceptable_reference(data: Seq<u8>, current_epoch: u64, n: u64) -> Result<bool, ProgramError> {
    if data.len() < 4 {
        Err(ProgramError::InvalidAccountData)
    } else {
        let count = le_u32_at(data, 0) as int;
        if count < n {
            Ok(false)
        } else if n > 0 && 4 + (count - 1) * 24 + 8 > data.len() {
            Err(ProgramError::InvalidAccountData)
        } else {
            Ok(forall|i: int| 0 <= i < n ==> #[trigger] le_u64_at(data, 4 + (count - 1 - i) * 24) == sat_sub(current_epoch, i as u64))
        }
    }
}

/// Checks that a reference vote account voted in each of the last `n` epochs.
pub fn acceptable_reference_epoch_credits_bytes(data: &[u8], current_epoch: u64, n: u64) -> (r: Result<bool, ProgramError>)
    ensures
        r == spec_acceptable_reference(data@, current_epoch, n),
{
    if data.len() < 4 {
        return Err(ProgramError::InvalidAccountData);
    }
    let count = read_u32_le(data, 0) as u64;
    if count < n {
        return Ok(false);
    }
    let mut i: u64 = 0;
    while i < n
        invariant
            0 <= i <= n,
            n <= count,
            count < 0x1_0000_0000,
            count == le_u32_at(data@, 0),
            data@.len() >= 4,
            i > 0 ==> 4 + (count - 1) * 24 + 8 <= data@.len(),
            forall|j: int| 0 <= j < i ==> #[trigger] le_u64_at(data@, 4 + (count - 1 - j) * 24) == sat_sub(current_epoch, j as u64),
        decreases n - i,
    {
        let entry_index = count - 1 - i;
        let off = 4 + entry_index * 24;
        if off + 8 > data.len() as u64 {
            proof {
                if i > 0 {
                    assert(entry_index * 24 <= (count - 1) * 24) by (nonlinear_arith)
                        requires
                            entry_index <= count - 1,
                    ;
                }
            }
            return Err(ProgramError::InvalidAccountData);
        }
        let vote_epoch = read_u64_le(data, off as usize);
        let expected = current_epoch.saturating_sub(i);
        if vote_epoch != expected {
            proof {
                assert(!(le_u64_at(data@, 4 + (count - 1 - i) * 24) == sat_sub(current_epoch, i as u64)));
            }
            return Ok(false);
        }
        i = i + 1;
    }
    Ok(true)
}

/// The epoch of the newest entry of vote account data, `None` without
/// entries; `InvalidAccountData` without a count or with the newest entry
/// beyond the data.
pub open spec fn spec_last_vote_epoch(data: Seq<u8>) -> Result<Option<u64>, ProgramError> {
    if data.len() < 4 {
        Err(ProgramError::InvalidAccountData)
    } else {
        let count = le_u32_at(data, 0) as int;
        if count == 0 {
            Ok(None)
        } else if 4 + (count - 1) * 24 + 8 > data.len() {
            Err(ProgramError::InvalidAccountData)
        } else {
            Ok(Some(le_u64_at(data, 4 + (count - 1) * 24)))
        }
    }
}

/// Reads the epoch of the newest vote.
pub fn last_vote_epoch_bytes(data: &[u8]) -> (r: Result<Option<u64>, ProgramError>)
    ensures
        r == spec_last_vote_epoch(data@),
{
    if data.len() < 4 {
        return Err(ProgramError::InvalidAccountData);
    }
    let count = read_u32_le(data, 0) as u64;
    if count == 0 {
        return Ok(None);
    }
    let off = 4 + (count - 1) * 24;
    if off + 8 > data.len() as u64 {
        return Err(ProgramError::InvalidAccountData);
    }
    Ok(Some(read_u64_le(data, off as usize)))
}

/// Whether a delinquent vote account's last vote is old enough: it never
/// voted, or voted at most at `current_epoch - n`.
pub open spec fn spec_delinquent_eligible(last: Option<u64>, current_epoch: u64, n: u64) -> bool {
    match last {
        None => true,
        Some(last_epoch) => current_epoch >= n && last_epoch <= current_epoch - n,
    }
}

/// What `DeactivateDelinquent` gives at `clock`. Accounts: the delegated
/// stake account, the delinquent vote account it delegates to, and a
/// reference vote account that voted in each of the last five epochs. The
/// stake is deactivated at the current epoch if the delinquent account has
/// not voted in the last five epochs.
pub open spec fn spec_process_deactivate_delinquent(accs: Seq<AccountState>, clock: Clock) -> Result<Seq<AccountState>, ProgramError> {
    let n = MINIMUM_DELINQUENT_EPOCHS_FOR_DEACTIVATION;
    if accs.len() < 3 {
        Err(ProgramError::NotEnoughAccountKeys)
    } else {
        match spec_acceptable_reference(accs[2].data, clock.epoch, n) {
            Err(e) => Err(e),
            Ok(false) => Err(spec_to_program_error(StakeError::InsufficientReferenceVotes)),
            Ok(true) => match spec_last_vote_epoch(accs[1].data) {
                Err(e) => Err(e),
                Ok(last) => match spec_get_stake_state(accs[0]) {
                    Err(e) => Err(e),
                    Ok(StakeStateV2::Stake(meta, stake, flags)) => {
                        if stake.delegation.voter_pubkey != accs[1].key {
                            Err(spec_to_program_error(StakeError::VoteAddressMismatch))
                        } else if spec_delinquent_eligible(last, clock.epoch, n) {
                            match spec_deactivate(stake, clock.epoch) {
                                Err(e) => Err(e),
                                Ok(s) => spec_store(accs, 0, StakeStateV2::Stake(meta, s, flags)),
                            }
                        } else {
                            Err(spec_to_program_error(StakeError::MinimumDelinquentEpochsForDeactivationNotMet))
                        }
                    },
                    Ok(_) => Err(ProgramError::InvalidAccountData),
                },
            },
        }
    }
}

/// Deactivating a delinquent stake changes only the stake account's data:
/// no balance changes and the other accounts stay.
pub proof fn lemma_deactivate_delinquent_keeps_balances(accs: Seq<AccountState>, clock: Clock)
    requires
        spec_process_deactivate_delinquent(accs, clock) is Ok,
    ensures
        spec_process_deactivate_delinquent(accs, clock) matches Ok(t) && {
            &&& t.len() == accs.len()
            &&& total_lamports(t) == total_lamports(accs)
            &&& same_layout(accs, t)
            &&& t[0].lamports == accs[0].lamports
            &&& forall|j: int| 1 <= j < accs.len() ==> #[trigger] t[j] == accs[j]
        },
{
    match spec_get_stake_state(accs[0])->Ok_0 {
        StakeStateV2::Stake(meta, stake, flags) => {
            let s = spec_deactivate(stake, clock.epoch)->Ok_0;
            lemma_store_keeps_lamports(accs, 0, StakeStateV2::Stake(meta, s, flags));
        },
        _ => {},
    }
}

/// Only a delinquent vote account's stake is deactivated: where it succeeds,
/// the vote account (the one the stake delegates to) has no vote entries, or
/// its newest vote is at least five epochs (`MINIMUM_DELINQUENT_EPOCHS_FOR_DEACTIVATION`)
/// old; a vote in any of the last five epochs refuses it. The reference
/// vote account's five newest entries are for the current epoch and the four
/// before it, newest last. The stake, not
/// deactivated before, is then deactivated at the current epoch, all else kept.
pub proof fn lemma_delinquent_needs_five_silent_epochs(accs: Seq<AccountState>, clock: Clock)
    requires
        spec_process_deactivate_delinquent(accs, clock) is Ok,
    ensures
        spec_process_deactivate_delinquent(accs, clock) matches Ok(t) && {
            let data = accs[1].data;
            let count = le_u32_at(data, 0) as int;
            let reference = accs[2].data;
            let reference_count = le_u32_at(reference, 0) as int;
            &&& count == 0 || le_u64_at(data, 4 + (count - 1) * 24) + MINIMUM_DELINQUENT_EPOCHS_FOR_DEACTIVATION <= clock.epoch
            &&& reference_count >= MINIMUM_DELINQUENT_EPOCHS_FOR_DEACTIVATION
            &&& forall|i: int|
                0 <= i < MINIMUM_DELINQUENT_EPOCHS_FOR_DEACTIVATION ==> #[trigger] le_u64_at(reference, 4 + (reference_count - 1 - i) * 24)
                    == (if clock.epoch >= i { clock.epoch - i } else { 0 })
            &&& spec_get_stake_state(accs[0]) matches Ok(StakeStateV2::Stake(meta, stake, flags)) && {
                &&& stake.delegation.voter_pubkey == accs[1].key
                &&& stake.delegation.deactivation_epoch == u64::MAX
                &&& spec_deserialize(t[0].data) == Ok::<StakeStateV2, ProgramError>(StakeStateV2::Stake(
                    meta,
                    Stake { delegation: Delegation { deactivation_epoch: clock.epoch, ..stake.delegation }, ..stake },
                    flags,
                ))
            }
        },
{
    match spec_get_stake_state(accs[0])->Ok_0 {
        StakeStateV2::Stake(meta, stake, flags) => {
            let s = spec_deactivate(stake, clock.epoch)->Ok_0;
            lemma_store_keeps_lamports(accs, 0, StakeStateV2::Stake(meta, s, flags));
        },
        _ => {},
    }
}

/// Deactivates a stake delegated to a delinquent vote account.
pub fn process_deactivate_delinquent(accounts: &mut Vec<AccountInfo>, clock: &Clock) -> (r: Result<(), ProgramError>)
    ensures
        final(accounts)@.len() == old(accounts)@.len(),
        r is Err ==> states(final(accounts)@) == states(old(accounts)@),
        match spec_process_deactivate_delinquent(states(old(accounts)@), *clock) {
            Ok(s) => r is Ok && states(final(accounts)@) == s,
            Err(e) => r == Err::<(), ProgramError>(e),
        },
{
    if accounts.len() < 3 {
        return Err(ProgramError::NotEnoughAccountKeys);
    }
    let vote_pid = vote_program_id();
    if !pubkey_eq(&vote_pid, &DEFAULT_PUBKEY) {
        if !pubkey_eq(&accounts[2].owner, &vote_pid) || !pubkey_eq(&accounts[1].owner, &vote_pid) {
            return Err(ProgramError::IncorrectProgramId);
        }
    }
    let ok = acceptable_reference_epoch_credits_bytes(
        accounts[2].data.as_slice(),
        clock.epoch,
        MINIMUM_DELINQUENT_EPOCHS_FOR_DEACTIVATION,
    )?;
    if !ok {
        return Err(to_program_error(StakeError::InsufficientReferenceVotes));
    }
    let delinquent_is_eligible = match last_vote_epoch_bytes(accounts[1].data.as_slice())? {
        None => true,
        Some(last_epoch) => match clock.epoch.checked_sub(MINIMUM_DELINQUENT_EPOCHS_FOR_DEACTIVATION) {
            Some(min_epoch) => last_epoch <= min_epoch,
            None => false,
        },
    };
    let state = get_stake_state(&accounts[0])?;
    match state {
        StakeStateV2::Stake(meta, stake, flags) => {
            if !pubkey_eq(&stake.delegation.voter_pubkey, &accounts[1].key) {
                return Err(to_program_error(StakeError::VoteAddressMismatch));
            }
            if delinquent_is_eligible {
                let mut stake = stake;
                if let Err(e) = stake.deactivate(clock.epoch) {
                    return Err(to_program_error(e));
                }
                set_stake_state_at(accounts, 0, &StakeStateV2::Stake(meta, stake, flags))
            } else {
                Err(to_program_error(StakeError::MinimumDelinquentEpochsForDeactivationNotMet))
            }
        },
        _ => Err(ProgramError::InvalidAccountData),
    }
}

} // verus!
