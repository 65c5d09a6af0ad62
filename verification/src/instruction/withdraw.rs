//! `Withdraw`: move lamports out of a stake account.
use vstd::prelude::*;

use crate::error::{spec_to_program_error, to_program_error, ProgramError, StakeError};
use crate::helpers::checked_add;
use crate::helpers::utils::{
    get_stake_state, lemma_relocate_conserves, relocate_lamports, set_stake_state_at, spec_get_stake_state, spec_relocate,
};
use crate::instruction::{lemma_store_keeps_lamports, spec_store};
use crate::pubkey::{Pubkey, DEFAULT_PUBKEY};
use crate::state::account_info::{
    copy_accounts, same_layout, states, total_lamports, AccountInfo, AccountState,
};
use crate::state::accounts::StakeAuthorize;
use crate::state::stake_history::StakeActivationStatus;
use crate::state::stake_state_v2::{spec_deserialize, StakeStateV2};
use crate::state::state::{spec_lockup_in_force, Lockup};
use crate::sysvars::{spec_clock_from_account, Clock};

verus! {

/// The lockup that applies, the balance that must stay behind, and whether
/// the account is still staked. A delegated or initialized account needs the
/// withdrawer among `signers`; an uninitialized one needs its own signature.
/// A delegation that is deactivating (`clock.epoch` at or past its
/// deactivation epoch) keeps `status.effective` staked, otherwise its whole
/// stake.
pub open spec fn spec_withdraw_terms(
    state: StakeStateV2,
    signers: Seq<Pubkey>,
    clock: Clock,
    status: StakeActivationStatus,
    source_signed: bool,
) -> Result<(Lockup, u64, bool), ProgramError> {
    match state {
        StakeStateV2::Stake(meta, stake, _) => {
            if !signers.contains(meta.authorized.withdrawer) {
                Err(ProgramError::MissingRequiredSignature)
            } else {
                let staked = if clock.epoch >= stake.delegation.deactivation_epoch {
                    status.effective
                } else {
                    stake.delegation.stake
                };
                if staked + meta.rent_exempt_reserve > u64::MAX {
                    Err(ProgramError::InsufficientFunds)
                } else {
                    Ok((meta.lockup, (staked + meta.rent_exempt_reserve) as u64, staked != 0))
                }
            }
        },
        StakeStateV2::Initialized(meta) => {
            if !signers.contains(meta.authorized.withdrawer) {
                Err(ProgramError::MissingRequiredSignature)
            } else {
                Ok((meta.lockup, meta.rent_exempt_reserve, false))
            }
        },
        StakeStateV2::Uninitialized => {
            if !source_signed {
                Err(ProgramError::MissingRequiredSignature)
            } else {
                Ok((Lockup { unix_timestamp: 0, epoch: 0, custodian: DEFAULT_PUBKEY }, 0, false))
            }
        },
        StakeStateV2::RewardsPool => Err(ProgramError::InvalidAccountData),
    }
}

/// What `Withdraw` gives. Accounts: the stake account, the destination, the
/// clock sysvar, the stake history sysvar, the withdraw authority, and
/// optionally the lockup custodian. An uninitialized account that signed
/// pays out at once. Otherwise the withdraw authority, and the custodian
/// where given, must sign; the lockup must not be in force; taking the whole
/// balance needs a stake that is no longer staked and resets the account to
/// uninitialized, and taking part must leave the reserve behind.
/// `status` is the source delegation's activation status at the clock's epoch.
pub open spec fn spec_process_withdraw(
    accs: Seq<AccountState>,
    lamports: u64,
    status: StakeActivationStatus,
) -> Result<Seq<AccountState>, ProgramError> {
    if accs.len() < 5 {
        Err(ProgramError::NotEnoughAccountKeys)
    } else if spec_get_stake_state(accs[0]) == Ok::<StakeStateV2, ProgramError>(StakeStateV2::Uninitialized) {
        if !accs[0].is_signer {
            Err(ProgramError::MissingRequiredSignature)
        } else {
            spec_relocate(accs, 0, 1, lamports)
        }
    } else {
        match spec_clock_from_account(accs[2]) {
            Err(e) => Err(e),
            Ok(clock) => {
                if !accs[4].is_signer {
                    Err(ProgramError::MissingRequiredSignature)
                } else if accs.len() > 5 && !accs[5].is_signer {
                    Err(ProgramError::MissingRequiredSignature)
                } else {
                    let signers = if accs.len() > 5 { seq![accs[4].key, accs[5].key] } else { seq![accs[4].key] };
                    let custodian = if accs.len() > 5 { Some(accs[5].key) } else { None };
                    match spec_get_stake_state(accs[0]) {
                        Err(e) => Err(e),
                        Ok(state) => match spec_withdraw_terms(state, signers, clock, status, accs[0].is_signer) {
                            Err(e) => Err(e),
                            Ok((lockup, reserve, is_staked)) => {
                                if spec_lockup_in_force(lockup, clock, custodian) {
                                    Err(spec_to_program_error(StakeError::LockupInForce))
                                } else if lamports == accs[0].lamports {
                                    if is_staked {
                                        Err(ProgramError::InsufficientFunds)
                                    } else {
                                        match spec_store(accs, 0, StakeStateV2::Uninitialized) {
                                            Err(e) => Err(e),
                                            Ok(cleared) => spec_relocate(cleared, 0, 1, lamports),
                                        }
                                    }
                                } else if lamports + reserve > accs[0].lamports {
                                    Err(ProgramError::InsufficientFunds)
                                } else {
                                    spec_relocate(accs, 0, 1, lamports)
                                }
                            },
                        },
                    }
                }
            },
        }
    }
}

/// A withdrawal moves exactly the requested lamports to the destination and
/// keeps the total. Taking the whole balance leaves the account empty and
/// uninitialized; taking part of it leaves at least the rent-exempt reserve
/// of an initialized or delegated account behind.
pub proof fn lemma_withdraw_moves_exactly(accs: Seq<AccountState>, lamports: u64, status: StakeActivationStatus)
    requires
        spec_process_withdraw(accs, lamports, status) is Ok,
    ensures
        spec_process_withdraw(accs, lamports, status) matches Ok(t) && {
            &&& t.len() == accs.len()
            &&& t[0].lamports == accs[0].lamports - lamports
            &&& t[1].lamports == accs[1].lamports + lamports
            &&& total_lamports(t) == total_lamports(accs)
            &&& same_layout(accs, t)
            &&& forall|j: int| 2 <= j < accs.len() ==> #[trigger] t[j] == accs[j]
            &&& lamports == accs[0].lamports ==> t[0].lamports == 0 && spec_deserialize(t[0].data)
                == Ok::<StakeStateV2, ProgramError>(StakeStateV2::Uninitialized)
            &&& lamports != accs[0].lamports ==> (spec_get_stake_state(accs[0]) matches Ok(
                StakeStateV2::Initialized(meta),
            ) ==> t[0].lamports >= meta.rent_exempt_reserve)
            &&& lamports != accs[0].lamports ==> (spec_get_stake_state(accs[0]) matches Ok(
                StakeStateV2::Stake(meta, _, _),
            ) ==> t[0].lamports >= meta.rent_exempt_reserve)
        },
{
    if spec_get_stake_state(accs[0]) == Ok::<StakeStateV2, ProgramError>(StakeStateV2::Uninitialized) {
        lemma_relocate_conserves(accs, 0, 1, lamports);
    } else if lamports == accs[0].lamports {
        lemma_store_keeps_lamports(accs, 0, StakeStateV2::Uninitialized);
        let cleared = spec_store(accs, 0, StakeStateV2::Uninitialized)->Ok_0;
        lemma_relocate_conserves(cleared, 0, 1, lamports);
    } else {
        lemma_relocate_conserves(accs, 0, 1, lamports);
    }
}

/// Who may withdraw from an initialized or delegated account, and when: the
/// withdraw authority (the fifth account) signed and is the withdrawer, or
/// the signing sixth account is; and the lockup has passed (its time and
/// epoch, where set, reached) unless its custodian signed as the sixth
/// account.
pub proof fn lemma_withdraw_needs_withdrawer_and_open_lockup(
    accs: Seq<AccountState>,
    lamports: u64,
    status: StakeActivationStatus,
    meta: crate::state::state::Meta,
)
    requires
        spec_process_withdraw(accs, lamports, status) is Ok,
        (spec_get_stake_state(accs[0]) matches Ok(StakeStateV2::Initialized(m)) && m == meta)
            || (spec_get_stake_state(accs[0]) matches Ok(StakeStateV2::Stake(m, _, _)) && m == meta),
    ensures
        spec_clock_from_account(accs[2]) matches Ok(clock) && {
            let custodian_signed = accs.len() > 5 && accs[5].is_signer && accs[5].key == meta.lockup.custodian
                && meta.lockup.custodian != DEFAULT_PUBKEY;
            &&& accs[4].is_signer
            &&& accs[4].key == meta.authorized.withdrawer || (accs.len() > 5 && accs[5].is_signer && accs[5].key
                == meta.authorized.withdrawer)
            &&& custodian_signed || ((meta.lockup.unix_timestamp == 0 || clock.unix_timestamp >= meta.lockup.unix_timestamp)
                && (meta.lockup.epoch == 0 || clock.epoch >= meta.lockup.epoch))
        },
{
    let signers = if accs.len() > 5 { seq![accs[4].key, accs[5].key] } else { seq![accs[4].key] };
    if signers.contains(meta.authorized.withdrawer) {
        let j = choose|j: int| 0 <= j < signers.len() && signers[j] == meta.authorized.withdrawer;
        assert(j == 0 || j == 1);
    }
}

/// A partial withdrawal from a delegated account leaves its stake and its
/// rent-exempt reserve behind: before the deactivation epoch the whole
/// delegated stake counts as staked, from it on the stake that `status`
/// shows still effective. The balance left is at least that plus the reserve.
pub proof fn lemma_partial_withdraw_keeps_stake_and_reserve(
    accs: Seq<AccountState>,
    lamports: u64,
    status: StakeActivationStatus,
    meta: crate::state::state::Meta,
    stake: crate::state::delegation::Stake,
    flags: crate::state::stake_flag::StakeFlags,
)
    requires
        spec_get_stake_state(accs[0]) == Ok::<StakeStateV2, ProgramError>(StakeStateV2::Stake(meta, stake, flags)),
        spec_process_withdraw(accs, lamports, status) is Ok,
        lamports != accs[0].lamports,
    ensures
        spec_process_withdraw(accs, lamports, status) matches Ok(t) && spec_clock_from_account(accs[2]) matches Ok(clock) && {
            &&& clock.epoch < stake.delegation.deactivation_epoch ==> t[0].lamports >= stake.delegation.stake
                + meta.rent_exempt_reserve
            &&& clock.epoch >= stake.delegation.deactivation_epoch ==> t[0].lamports >= status.effective
                + meta.rent_exempt_reserve
        },
{
    lemma_withdraw_moves_exactly(accs, lamports, status);
}

/// The whole balance of a delegated account cannot be withdrawn while any
/// of its stake is still staked: before its deactivation epoch, or while
/// `status` shows stake still effective.
pub proof fn lemma_withdraw_refuses_staked(
    accs: Seq<AccountState>,
    status: StakeActivationStatus,
    meta: crate::state::state::Meta,
    stake: crate::state::delegation::Stake,
    flags: crate::state::stake_flag::StakeFlags,
)
    requires
        spec_get_stake_state(accs[0]) == Ok::<StakeStateV2, ProgramError>(StakeStateV2::Stake(meta, stake, flags)),
        accs.len() >= 5 ==> (spec_clock_from_account(accs[2]) matches Ok(clock) ==> (if clock.epoch
            >= stake.delegation.deactivation_epoch {
            status.effective
        } else {
            stake.delegation.stake
        }) != 0),
    ensures
        spec_process_withdraw(accs, accs[0].lamports, status) is Err,
{
}

/// Withdraws `withdraw_lamports` from the stake account to the destination.
/// A refusal leaves every account as it was, whatever step refused.
pub fn process_withdraw(
    accounts: &mut Vec<AccountInfo>,
    withdraw_lamports: u64,
    status: &StakeActivationStatus,
) -> (r: Result<(), ProgramError>)
    ensures
        final(accounts)@.len() == old(accounts)@.len(),
        r is Err ==> states(final(accounts)@) == states(old(accounts)@),
        match spec_process_withdraw(states(old(accounts)@), withdraw_lamports, *status) {
            Ok(s) => r is Ok && states(final(accounts)@) == s,
            Err(e) => r == Err::<(), ProgramError>(e),
        },
{
    let saved = copy_accounts(accounts);
    let r = withdraw_steps(accounts, withdraw_lamports, status);
    if r.is_err() {
        *accounts = saved;
    }
    r
}

/// The steps of `process_withdraw`, which may have written to the accounts when they fail.
fn withdraw_steps(
    accounts: &mut Vec<AccountInfo>,
    withdraw_lamports: u64,
    status: &StakeActivationStatus,
) -> (r: Result<(), ProgramError>)
    ensures
        final(accounts)@.len() == old(accounts)@.len(),
        match spec_process_withdraw(states(old(accounts)@), withdraw_lamports, *status) {
            Ok(s) => r is Ok && states(final(accounts)@) == s,
            Err(e) => r == Err::<(), ProgramError>(e),
        },
{
    if accounts.len() < 5 {
        return Err(ProgramError::NotEnoughAccountKeys);
    }
    let loaded = get_stake_state(&accounts[0]);
    if let Ok(StakeStateV2::Uninitialized) = loaded {
        if !accounts[0].is_signer {
            return Err(ProgramError::MissingRequiredSignature);
        }
        return relocate_lamports(accounts, 0, 1, withdraw_lamports);
    }
    let clock = Clock::from_account_info(&accounts[2])?;
    if !accounts[4].is_signer {
        return Err(ProgramError::MissingRequiredSignature);
    }
    let mut signers: Vec<Pubkey> = Vec::new();
    signers.push(accounts[4].key);
    let mut custodian: Option<Pubkey> = None;
    if accounts.len() > 5 {
        if !accounts[5].is_signer {
            return Err(ProgramError::MissingRequiredSignature);
        }
        signers.push(accounts[5].key);
        custodian = Some(accounts[5].key);
    }
    proof {
        let accs = states(accounts@);
        if accs.len() > 5 {
            assert(signers@ =~= seq![accs[4].key, accs[5].key]);
        } else {
            assert(signers@ =~= seq![accs[4].key]);
        }
    }
    let state = loaded?;
    let (lockup, reserve, is_staked) = match state {
        StakeStateV2::Stake(meta, stake, _) => {
            if let Err(e) = meta.authorized.check(signers.as_slice(), StakeAuthorize::Withdrawer) {
                return Err(to_program_error(e));
            }
            let staked: u64 = if clock.epoch >= stake.delegation.deactivation_epoch {
                status.effective
            } else {
                stake.delegation.stake
            };
            let staked_plus_reserve = checked_add(staked, meta.rent_exempt_reserve)?;
            (meta.lockup, staked_plus_reserve, staked != 0)
        },
        StakeStateV2::Initialized(meta) => {
            if let Err(e) = meta.authorized.check(signers.as_slice(), StakeAuthorize::Withdrawer) {
                return Err(to_program_error(e));
            }
            (meta.lockup, meta.rent_exempt_reserve, false)
        },
        StakeStateV2::Uninitialized => {
            if !accounts[0].is_signer {
                return Err(ProgramError::MissingRequiredSignature);
            }
            (Lockup::default(), 0u64, false)
        },
        StakeStateV2::RewardsPool => {
            return Err(ProgramError::InvalidAccountData);
        },
    };
    let custodian_ref: Option<&Pubkey> = match &custodian {
        Some(k) => Some(k),
        None => None,
    };
    if lockup.is_in_force(&clock, custodian_ref) {
        return Err(to_program_error(StakeError::LockupInForce));
    }
    let stake_account_lamports = accounts[0].lamports;
    if withdraw_lamports == stake_account_lamports {
        if is_staked {
            return Err(ProgramError::InsufficientFunds);
        }
        set_stake_state_at(accounts, 0, &StakeStateV2::Uninitialized)?;
    } else {
        let withdraw_plus_reserve = checked_add(withdraw_lamports, reserve)?;
        if withdraw_plus_reserve > stake_account_lamports {
            return Err(ProgramError::InsufficientFunds);
        }
    }
    relocate_lamports(accounts, 0, 1, withdraw_lamports)
}

} // verus!
