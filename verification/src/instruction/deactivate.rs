//! `Deactivate`: start cooling down a delegated stake.
use vstd::prelude::*;

use crate::error::{spec_to_program_error, to_program_error, ProgramError, StakeError};
use crate::helpers::utils::{get_stake_state, set_stake_state_at, spec_get_stake_state};
use crate::instruction::{collect_signer_keys, lemma_store_keeps_lamports, spec_signers, spec_store};
use crate::pubkey::pubkey_eq;
use crate::state::account_info::{
    lemma_signer_keys_contains, lemma_signer_keys_same, same_layout, signed_by, states, total_lamports, AccountInfo,
    AccountState,
};
use crate::state::accounts::StakeAuthorize;
use crate::state::delegation::{Delegation, Stake};
use crate::state::stake_state_v2::{spec_deserialize, StakeStateV2};
use crate::sysvars::{spec_clock_from_account, Clock, CLOCK_ID};

verus! {

/// `stake` deactivated at `epoch`, unless it already is.
pub open spec fn spec_deactivate(stake: Stake, epoch: u64) -> Result<Stake, ProgramError> {
    if stake.delegation.deactivation_epoch != u64::MAX {
        Err(spec_to_program_error(StakeError::AlreadyDeactivated))
    } else {
        Ok(Stake { delegation: Delegation { deactivation_epoch: epoch, ..stake.delegation }, ..stake })
    }
}

/// What `Deactivate` gives. Accounts: the delegated stake account and the
/// clock sysvar; the staker must sign. The deactivation epoch becomes the
/// current epoch.
pub open spec fn spec_process_deactivate(accs: Seq<AccountState>) -> Result<Seq<AccountState>, ProgramError> {
    match spec_signers(accs) {
        Err(e) => Err(e),
        Ok(signers) => {
            if accs.len() < 2 {
                Err(ProgramError::NotEnoughAccountKeys)
            } else if accs[1].key != CLOCK_ID {
                Err(ProgramError::InvalidArgument)
            } else {
                match spec_clock_from_account(accs[1]) {
                    Err(e) => Err(e),
                    Ok(clock) => match spec_get_stake_state(accs[0]) {
                        Err(e) => Err(e),
                        Ok(StakeStateV2::Stake(meta, stake, flags)) => {
                            if !signers.contains(meta.authorized.staker) {
                                Err(ProgramError::MissingRequiredSignature)
                            } else {
                                match spec_deactivate(stake, clock.epoch) {
                                    Err(e) => Err(e),
                                    Ok(s) => spec_store(accs, 0, StakeStateV2::Stake(meta, s, flags)),
                                }
                            }
                        },
                        Ok(_) => Err(ProgramError::InvalidAccountData),
                    },
                }
            }
        },
    }
}

/// Only the staker can deactivate, and only a stake not yet deactivating: a
/// deactivation that succeeds was signed by the stake's staker and found the
/// deactivation epoch unset.
pub proof fn lemma_deactivate_needs_staker(accs: Seq<AccountState>)
    requires
        spec_process_deactivate(accs) is Ok,
    ensures
        spec_get_stake_state(accs[0]) matches Ok(StakeStateV2::Stake(meta, stake, _)) && {
            &&& signed_by(accs, meta.authorized.staker)
            &&& stake.delegation.deactivation_epoch == u64::MAX
        },
{
    let meta = spec_get_stake_state(accs[0])->Ok_0->Stake_0;
    lemma_signer_keys_contains(accs, meta.authorized.staker);
}

/// A deactivation records the clock's epoch as the deactivation epoch of
/// the stake account's delegation and changes nothing else: no balance, no
/// other account, no other field of the state.
pub proof fn lemma_deactivate_records_epoch(accs: Seq<AccountState>)
    requires
        spec_process_deactivate(accs) is Ok,
    ensures
        spec_process_deactivate(accs) matches Ok(t) && spec_clock_from_account(accs[1]) matches Ok(clock)
            && spec_get_stake_state(accs[0]) matches Ok(StakeStateV2::Stake(meta, stake, flags)) && {
            &&& t.len() == accs.len()
            &&& total_lamports(t) == total_lamports(accs)
            &&& same_layout(accs, t)
            &&& t[0].lamports == accs[0].lamports
            &&& spec_deserialize(t[0].data) == Ok::<StakeStateV2, ProgramError>(StakeStateV2::Stake(
                meta,
                Stake { delegation: Delegation { deactivation_epoch: clock.epoch, ..stake.delegation }, ..stake },
                flags,
            ))
            &&& forall|j: int| 1 <= j < accs.len() ==> #[trigger] t[j] == accs[j]
        },
{
    let clock = spec_clock_from_account(accs[1])->Ok_0;
    match spec_get_stake_state(accs[0])->Ok_0 {
        StakeStateV2::Stake(meta, stake, flags) => {
            let s = spec_deactivate(stake, clock.epoch)->Ok_0;
            lemma_store_keeps_lamports(accs, 0, StakeStateV2::Stake(meta, s, flags));
        },
        _ => {},
    }
}

/// Deactivating twice fails: once a deactivation has succeeded, running it
/// again on the accounts it left gives `AlreadyDeactivated`. (At the last
/// representable epoch the recorded epoch reads as "not deactivated", so
/// that epoch is left out.)
pub proof fn lemma_deactivate_twice_fails(accs: Seq<AccountState>)
    requires
        spec_process_deactivate(accs) is Ok,
        spec_clock_from_account(accs[1]) matches Ok(clock) && clock.epoch != u64::MAX,
    ensures
        spec_process_deactivate(accs) matches Ok(t)
            && spec_process_deactivate(t) == Err::<Seq<AccountState>, ProgramError>(
            spec_to_program_error(StakeError::AlreadyDeactivated),
        ),
{
    lemma_deactivate_records_epoch(accs);
    let t = spec_process_deactivate(accs)->Ok_0;
    lemma_signer_keys_same(accs, t);
}

/// Deactivates the stake at the current epoch.
pub fn process_deactivate(accounts: &mut Vec<AccountInfo>) -> (r: Result<(), ProgramError>)
    ensures
        final(accounts)@.len() == old(accounts)@.len(),
        r is Err ==> states(final(accounts)@) == states(old(accounts)@),
        match spec_process_deactivate(states(old(accounts)@)) {
            Ok(s) => r is Ok && states(final(accounts)@) == s,
            Err(e) => r == Err::<(), ProgramError>(e),
        },
{
    let signers = collect_signer_keys(accounts)?;
    if accounts.len() < 2 {
        return Err(ProgramError::NotEnoughAccountKeys);
    }
    if !pubkey_eq(&accounts[1].key, &CLOCK_ID) {
        return Err(ProgramError::InvalidArgument);
    }
    let clock = Clock::from_account_info(&accounts[1])?;
    let state = get_stake_state(&accounts[0])?;
    match state {
        StakeStateV2::Stake(meta, stake, flags) => {
            if let Err(e) = meta.authorized.check(signers.as_slice(), StakeAuthorize::Staker) {
                return Err(to_program_error(e));
            }
            let mut stake = stake;
            if let Err(e) = stake.deactivate(clock.epoch) {
                return Err(to_program_error(e));
            }
            set_stake_state_at(accounts, 0, &StakeStateV2::Stake(meta, stake, flags))
        },
        _ => Err(ProgramError::InvalidAccountData),
    }
}

} // verus!
