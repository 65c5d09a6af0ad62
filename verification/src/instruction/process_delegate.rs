//! `DelegateStake`: delegate a stake account's lamports to a vote account.
use vstd::prelude::*;

use crate::error::{spec_to_program_error, to_program_error, ProgramError, StakeError};
use crate::helpers::utils::{
    get_stake_state, get_vote_credits, new_stake_with_credits, redelegate_stake_with_credits, set_stake_state_at,
    spec_get_stake_state, spec_new_stake, spec_redelegate, spec_vote_state_of, validate_delegated_amount,
};
use crate::instruction::{collect_signer_keys, lemma_store_keeps_lamports, spec_signers, spec_store};
use crate::pubkey::pubkey_eq;
use crate::state::account_info::{
    same_layout, states, total_lamports, AccountInfo, AccountState,
};
use crate::state::accounts::StakeAuthorize;
use crate::state::delegation::{Delegation, Stake};
use crate::state::stake_flag::StakeFlags;
use crate::state::stake_history::StakeActivationStatus;
use crate::state::stake_state_v2::{spec_deserialize, StakeStateV2};
use crate::sysvars::{spec_clock_from_account, Clock};

verus! {

/// What delegating gives. Accounts: the stake account, the vote account
/// (at least 80 bytes, whose credits are observed), the clock sysvar, the
/// stake history and the stake config; the staker must sign. The delegated
/// amount is the balance above the reserve. An initialized account gets a
/// fresh delegation from the current epoch; a delegated one is pointed at
/// the vote account again as `spec_redelegate` says, `status` being the
/// activation status of its delegation at the clock's epoch; beforehand
/// `check_too_soon` refuses (`TooSoonToRedelegate`) a deactivating stake
/// moving to another vote account.
pub open spec fn spec_delegate(accs: Seq<AccountState>, check_too_soon: bool, status: StakeActivationStatus) -> Result<Seq<AccountState>, ProgramError> {
    match spec_signers(accs) {
        Err(e) => Err(e),
        Ok(signers) => {
            if accs.len() < 5 {
                Err(ProgramError::NotEnoughAccountKeys)
            } else {
                match spec_clock_from_account(accs[2]) {
                    Err(e) => Err(e),
                    Ok(clock) => {
                        if accs[1].data.len() < 80 {
                            Err(ProgramError::InvalidAccountData)
                        } else {
                            let credits = spec_vote_state_of(accs[1].data).credits;
                            match spec_get_stake_state(accs[0]) {
                                Err(e) => Err(e),
                                Ok(StakeStateV2::Initialized(meta)) => {
                                    if !signers.contains(meta.authorized.staker) {
                                        Err(ProgramError::MissingRequiredSignature)
                                    } else if accs[0].lamports < meta.rent_exempt_reserve {
                                        Err(ProgramError::InsufficientFunds)
                                    } else {
                                        let amount = (accs[0].lamports - meta.rent_exempt_reserve) as u64;
                                        spec_store(accs, 0, StakeStateV2::Stake(meta, spec_new_stake(amount, accs[1].key, credits, clock.epoch), StakeFlags { bits: 0 }))
                                    }
                                },
                                Ok(StakeStateV2::Stake(meta, stake, flags)) => {
                                    if !signers.contains(meta.authorized.staker) {
                                        Err(ProgramError::MissingRequiredSignature)
                                    } else if accs[0].lamports < meta.rent_exempt_reserve {
                                        Err(ProgramError::InsufficientFunds)
                                    } else if check_too_soon && stake.delegation.deactivation_epoch != u64::MAX
                                        && stake.delegation.voter_pubkey != accs[1].key {
                                        Err(spec_to_program_error(StakeError::TooSoonToRedelegate))
                                    } else {
                                        let amount = (accs[0].lamports - meta.rent_exempt_reserve) as u64;
                                        match spec_redelegate(stake, amount, accs[1].key, credits, clock.epoch, status) {
                                            Err(e) => Err(e),
                                            Ok(s) => spec_store(accs, 0, StakeStateV2::Stake(meta, s, flags)),
                                        }
                                    }
                                },
                                Ok(_) => Err(ProgramError::InvalidAccountData),
                            }
                        }
                    },
                }
            }
        },
    }
}

/// Delegating keeps the metadata and changes only the stake account's data.
/// A fresh delegation, and a redelegation of a stake without effective
/// stake, stakes exactly the balance above the reserve, to the vote account
/// given, from the clock's epoch, without deactivation. A stake that still
/// has effective stake is only rescinded: same vote account, in its
/// deactivation epoch, which is cleared, and all else kept.
pub proof fn lemma_delegate_stakes_balance_above_reserve(accs: Seq<AccountState>, check_too_soon: bool, status: StakeActivationStatus)
    requires
        spec_delegate(accs, check_too_soon, status) is Ok,
    ensures
        spec_delegate(accs, check_too_soon, status) matches Ok(t) && spec_clock_from_account(accs[2]) matches Ok(clock) && {
            &&& t.len() == accs.len()
            &&& total_lamports(t) == total_lamports(accs)
            &&& same_layout(accs, t)
            &&& t[0].lamports == accs[0].lamports
            &&& forall|j: int| 1 <= j < accs.len() ==> #[trigger] t[j] == accs[j]
            &&& spec_deserialize(t[0].data) matches Ok(StakeStateV2::Stake(meta, stake, _)) && {
                let fresh = {
                    &&& stake.delegation.stake == accs[0].lamports - meta.rent_exempt_reserve
                    &&& stake.delegation.voter_pubkey == accs[1].key
                    &&& stake.delegation.activation_epoch == clock.epoch
                    &&& stake.delegation.deactivation_epoch == u64::MAX
                };
                &&& spec_get_stake_state(accs[0]) matches Ok(StakeStateV2::Initialized(m0)) ==> meta == m0 && fresh
                &&& spec_get_stake_state(accs[0]) matches Ok(StakeStateV2::Stake(m0, s0, _)) ==> meta == m0 && if status.effective != 0 {
                    &&& s0.delegation.voter_pubkey == accs[1].key
                    &&& s0.delegation.deactivation_epoch == clock.epoch
                    &&& stake == (Stake { delegation: Delegation { deactivation_epoch: u64::MAX, ..s0.delegation }, ..s0 })
                } else {
                    fresh
                }
            }
        },
{
    let clock = spec_clock_from_account(accs[2])->Ok_0;
    let credits = spec_vote_state_of(accs[1].data).credits;
    match spec_get_stake_state(accs[0])->Ok_0 {
        StakeStateV2::Initialized(meta) => {
            let amount = (accs[0].lamports - meta.rent_exempt_reserve) as u64;
            lemma_store_keeps_lamports(
                accs,
                0,
                StakeStateV2::Stake(meta, spec_new_stake(amount, accs[1].key, credits, clock.epoch), StakeFlags { bits: 0 }),
            );
        },
        StakeStateV2::Stake(meta, stake, flags) => {
            let amount = (accs[0].lamports - meta.rent_exempt_reserve) as u64;
            let s = spec_redelegate(stake, amount, accs[1].key, credits, clock.epoch, status)->Ok_0;
            lemma_store_keeps_lamports(accs, 0, StakeStateV2::Stake(meta, s, flags));
        },
        _ => {},
    }
}

/// Delegates, or redelegates, the stake account to the vote account.
pub fn delegate_stake(accounts: &mut Vec<AccountInfo>, check_too_soon: bool, status: &StakeActivationStatus) -> (r: Result<(), ProgramError>)
    ensures
        final(accounts)@.len() == old(accounts)@.len(),
        r is Err ==> states(final(accounts)@) == states(old(accounts)@),
        match spec_delegate(states(old(accounts)@), check_too_soon, *status) {
            Ok(s) => r is Ok && states(final(accounts)@) == s,
            Err(e) => r == Err::<(), ProgramError>(e),
        },
{
    let signers = collect_signer_keys(accounts)?;
    if accounts.len() < 5 {
        return Err(ProgramError::NotEnoughAccountKeys);
    }
    let clock = Clock::from_account_info(&accounts[2])?;
    let vote_credits = get_vote_credits(&accounts[1])?;
    let vote_key = accounts[1].key;
    let state = get_stake_state(&accounts[0])?;
    match state {
        StakeStateV2::Initialized(meta) => {
            if let Err(e) = meta.authorized.check(signers.as_slice(), StakeAuthorize::Staker) {
                return Err(to_program_error(e));
            }
            let info = validate_delegated_amount(&accounts[0], &meta)?;
            let stake = new_stake_with_credits(info.stake_amount, &vote_key, clock.epoch, vote_credits);
            set_stake_state_at(accounts, 0, &StakeStateV2::Stake(meta, stake, StakeFlags::empty()))
        },
        StakeStateV2::Stake(meta, stake, flags) => {
            if let Err(e) = meta.authorized.check(signers.as_slice(), StakeAuthorize::Staker) {
                return Err(to_program_error(e));
            }
            let info = validate_delegated_amount(&accounts[0], &meta)?;
            if check_too_soon && stake.delegation.deactivation_epoch != u64::MAX && !pubkey_eq(&stake.delegation.voter_pubkey, &vote_key) {
                return Err(to_program_error(StakeError::TooSoonToRedelegate));
            }
            let mut stake = stake;
            redelegate_stake_with_credits(&mut stake, info.stake_amount, &vote_key, vote_credits, clock.epoch, status)?;
            set_stake_state_at(accounts, 0, &StakeStateV2::Stake(meta, stake, flags))
        },
        _ => Err(ProgramError::InvalidAccountData),
    }
}

/// `DelegateStake`: refuses moving a deactivating stake to another vote
/// account; `status` is the activation status of the stake account's
/// delegation at the clock's epoch.
pub fn process_delegate(accounts: &mut Vec<AccountInfo>, status: &StakeActivationStatus) -> (r: Result<(), ProgramError>)
    ensures
        final(accounts)@.len() == old(accounts)@.len(),
        r is Err ==> states(final(accounts)@) == states(old(accounts)@),
        match spec_delegate(states(old(accounts)@), true, *status) {
            Ok(s) => r is Ok && states(final(accounts)@) == s,
            Err(e) => r == Err::<(), ProgramError>(e),
        },
{
    delegate_stake(accounts, true, status)
}

} // verus!
