//! A withdrawal handler with a fixed one-epoch cooldown and its own
//! authority and lockup checks.
use vstd::prelude::*;

use crate::error::ProgramError;
use crate::helpers::constant::MAXIMUM_SIGNERS;
use crate::helpers::utils::{set_stake_state_at, spec_relocate};
use crate::instruction::spec_store;
use crate::pubkey::{contains_pubkey, pubkey_eq, Pubkey, DEFAULT_PUBKEY};
use crate::state::account_info::{copy_accounts, states, with_lamports, AccountInfo, AccountState};
use crate::state::accounts::{Authorized, StakeAuthorize};
use crate::state::delegation::Stake;
use crate::state::stake_state_v2::{spec_deserialize, StakeStateV2};
use crate::state::state::Lockup;
use crate::sysvars::{spec_clock_from_account, Clock};

verus! {

/// Custom error code of a withdrawal refused by a lockup.
pub const LOCKUP_IN_FORCE_CODE: u32 = 0x10;

/// Stake still held back at `current_epoch`: all of it before deactivation
/// and during the deactivation epoch, none from the epoch after.
pub open spec fn spec_remaining_stake(stake: Stake, current_epoch: u64) -> u64 {
    if current_epoch >= stake.delegation.deactivation_epoch && current_epoch - stake.delegation.deactivation_epoch >= 1 {
        0
    } else {
        stake.delegation.stake
    }
}

/// Whether `lockup` still holds at `clock`: its time or its epoch has not
/// been reached, and `custodian` is not its custodian.
pub open spec fn spec_is_lockup_in_force(lockup: Lockup, clock: Clock, custodian: Option<Pubkey>) -> bool {
    !(clock.unix_timestamp >= lockup.unix_timestamp && clock.epoch >= lockup.epoch)
        && custodian != Some(lockup.custodian)
}

/// The lockup, the amount that must stay behind (as an integer, before any
/// overflow) and whether the account is still staked.
pub open spec fn spec_withdraw_limits(
    state: StakeStateV2,
    signers: Seq<Pubkey>,
    clock: Clock,
    source_key: Pubkey,
) -> Result<(Lockup, int, bool), ProgramError> {
    match state {
        StakeStateV2::Stake(meta, stake, _) => {
            if !signers.contains(meta.authorized.withdrawer) {
                Err(ProgramError::MissingRequiredSignature)
            } else {
                let staked = if clock.epoch >= stake.delegation.deactivation_epoch {
                    spec_remaining_stake(stake, clock.epoch)
                } else {
                    stake.delegation.stake
                };
                Ok((meta.lockup, staked + meta.rent_exempt_reserve, staked != 0))
            }
        },
        StakeStateV2::Initialized(meta) => {
            if !signers.contains(meta.authorized.withdrawer) {
                Err(ProgramError::MissingRequiredSignature)
            } else {
                Ok((meta.lockup, meta.rent_exempt_reserve as int, false))
            }
        },
        StakeStateV2::Uninitialized => {
            if !signers.contains(source_key) {
                Err(ProgramError::MissingRequiredSignature)
            } else {
                Ok((Lockup { unix_timestamp: 0, epoch: 0, custodian: DEFAULT_PUBKEY }, 0, false))
            }
        },
        StakeStateV2::RewardsPool => Err(ProgramError::InvalidAccountData),
    }
}

/// What this withdrawal gives, or `None` where one of its unchecked sums
/// (stake plus reserve, withdrawal plus reserve) would leave `u64`.
/// Accounts: stake account, destination, clock sysvar, stake history sysvar,
/// withdraw authority (must sign), optionally a custodian.
pub open spec fn spec_process_withdraw_fixed(accs: Seq<AccountState>, lamports: u64) -> Option<
    Result<Seq<AccountState>, ProgramError>,
> {
    if accs.len() < 5 {
        Some(Err(ProgramError::NotEnoughAccountKeys))
    } else if !accs[4].is_signer {
        Some(Err(ProgramError::MissingRequiredSignature))
    } else {
        match spec_clock_from_account(accs[2]) {
            Err(e) => Some(Err(e)),
            Ok(clock) => {
                let custodian_signs = accs.len() > 5 && accs[5].is_signer;
                let signers = if custodian_signs { seq![accs[4].key, accs[5].key] } else { seq![accs[4].key] };
                let custodian = if custodian_signs { Some(accs[5].key) } else { None };
                match spec_deserialize(accs[0].data) {
                    Err(e) => Some(Err(e)),
                    Ok(state) => match spec_withdraw_limits(state, signers, clock, accs[0].key) {
                        Err(e) => Some(Err(e)),
                        Ok((lockup, reserve, is_staked)) => {
                            if reserve > u64::MAX {
                                None
                            } else if spec_is_lockup_in_force(lockup, clock, custodian) {
                                Some(Err(ProgramError::Custom(LOCKUP_IN_FORCE_CODE)))
                            } else if lamports == accs[0].lamports {
                                if is_staked {
                                    Some(Err(ProgramError::InsufficientFunds))
                                } else {
                                    match spec_store(accs, 0, StakeStateV2::Uninitialized) {
                                        Err(e) => Some(Err(e)),
                                        Ok(cleared) => Some(spec_relocate(cleared, 0, 1, lamports)),
                                    }
                                }
                            } else if lamports + reserve > u64::MAX {
                                None
                            } else if lamports + reserve > accs[0].lamports {
                                Some(Err(ProgramError::InsufficientFunds))
                            } else {
                                Some(spec_relocate(accs, 0, 1, lamports))
                            }
                        },
                    },
                }
            },
        }
    }
}

/// A partial withdrawal from a delegated account leaves its stake and its
/// rent-exempt reserve behind up to and through the deactivation epoch: the
/// balance left is at least the delegated stake plus the reserve.
pub proof fn lemma_fixed_partial_withdraw_keeps_stake_and_reserve(
    accs: Seq<AccountState>,
    lamports: u64,
    meta: crate::state::state::Meta,
    stake: Stake,
    flags: crate::state::stake_flag::StakeFlags,
)
    requires
        spec_deserialize(accs[0].data) == Ok::<StakeStateV2, ProgramError>(StakeStateV2::Stake(meta, stake, flags)),
        spec_process_withdraw_fixed(accs, lamports) matches Some(Ok(_)),
        lamports != accs[0].lamports,
    ensures
        spec_process_withdraw_fixed(accs, lamports) matches Some(Ok(t)) && spec_clock_from_account(accs[2]) matches Ok(clock)
            && (clock.epoch <= stake.delegation.deactivation_epoch ==> t[0].lamports >= stake.delegation.stake
            + meta.rent_exempt_reserve),
{
    crate::helpers::utils::lemma_relocate_conserves(accs, 0, 1, lamports);
}

/// Withdraws `withdraw_lamports` from the stake account to the destination.
/// A refusal leaves every account as it was, whatever step refused.
pub fn process_withdraw(accounts: &mut Vec<AccountInfo>, withdraw_lamports: u64) -> (r: Result<(), ProgramError>)
    requires
        spec_process_withdraw_fixed(states(old(accounts)@), withdraw_lamports) is Some,
    ensures
        final(accounts)@.len() == old(accounts)@.len(),
        r is Err ==> states(final(accounts)@) == states(old(accounts)@),
        match spec_process_withdraw_fixed(states(old(accounts)@), withdraw_lamports) {
            Some(Ok(s)) => r is Ok && states(final(accounts)@) == s,
            Some(Err(e)) => r == Err::<(), ProgramError>(e),
            None => false,
        },
{
    let saved = copy_accounts(accounts);
    let r = withdraw_steps(accounts, withdraw_lamports);
    if r.is_err() {
        *accounts = saved;
    }
    r
}

/// The steps of `process_withdraw`, which may have written to the accounts when they fail.
fn withdraw_steps(accounts: &mut Vec<AccountInfo>, withdraw_lamports: u64) -> (r: Result<(), ProgramError>)
    requires
        spec_process_withdraw_fixed(states(old(accounts)@), withdraw_lamports) is Some,
    ensures
        final(accounts)@.len() == old(accounts)@.len(),
        match spec_process_withdraw_fixed(states(old(accounts)@), withdraw_lamports) {
            Some(Ok(s)) => r is Ok && states(final(accounts)@) == s,
            Some(Err(e)) => r == Err::<(), ProgramError>(e),
            None => false,
        },
{
    if accounts.len() < 5 {
        return Err(ProgramError::NotEnoughAccountKeys);
    }
    if !accounts[4].is_signer {
        return Err(ProgramError::MissingRequiredSignature);
    }
    let clock = Clock::from_account_info(&accounts[2])?;
    let mut signers_array: [Pubkey; MAXIMUM_SIGNERS] = [DEFAULT_PUBKEY; MAXIMUM_SIGNERS];
    let custodian_authority: Option<&AccountInfo> = if accounts.len() > 5 {
        Some(&accounts[5])
    } else {
        None
    };
    let signers_count = collect_signers_fixed(&accounts[4], custodian_authority, &mut signers_array);
    let signers = slice_prefix(&signers_array, signers_count);
    let custodian: Option<Pubkey> = match custodian_authority {
        Some(c) => if c.is_signer {
            Some(c.key)
        } else {
            None
        },
        None => None,
    };
    proof {
        let accs = states(accounts@);
        if accs.len() > 5 && accs[5].is_signer {
            assert(signers@ =~= seq![accs[4].key, accs[5].key]);
        } else {
            assert(signers@ =~= seq![accs[4].key]);
        }
    }
    let stake_state = StakeStateV2::deserialize(accounts[0].data.as_slice())?;
    let (lockup, reserve, is_staked) = match stake_state {
        StakeStateV2::Stake(meta, stake, _) => {
            check_authority(&meta.authorized, signers.as_slice(), StakeAuthorize::Withdrawer)?;
            let staked: u64 = if clock.epoch >= stake.delegation.deactivation_epoch {
                calculate_remaining_stake(&stake, clock.epoch)
            } else {
                stake.delegation.stake
            };
            (meta.lockup, staked + meta.rent_exempt_reserve, staked != 0)
        },
        StakeStateV2::Initialized(meta) => {
            check_authority(&meta.authorized, signers.as_slice(), StakeAuthorize::Withdrawer)?;
            (meta.lockup, meta.rent_exempt_reserve, false)
        },
        StakeStateV2::Uninitialized => {
            if !contains_pubkey(signers.as_slice(), &accounts[0].key) {
                return Err(ProgramError::MissingRequiredSignature);
            }
            (Lockup::default(), 0u64, false)
        },
        StakeStateV2::RewardsPool => {
            return Err(ProgramError::InvalidAccountData);
        },
    };
    if is_lockup_in_force(&lockup, &clock, custodian) {
        return Err(ProgramError::Custom(LOCKUP_IN_FORCE_CODE));
    }
    let stake_account_lamports = accounts[0].lamports;
    if withdraw_lamports == stake_account_lamports {
        if is_staked {
            return Err(ProgramError::InsufficientFunds);
        }
        set_stake_state_at(accounts, 0, &StakeStateV2::Uninitialized)?;
    } else {
        if withdraw_lamports + reserve > stake_account_lamports {
            return Err(ProgramError::InsufficientFunds);
        }
    }
    transfer_lamports(accounts, 0, 1, withdraw_lamports)
}

/// The first `n` keys of `array`.
fn slice_prefix(array: &[Pubkey; MAXIMUM_SIGNERS], n: usize) -> (r: Vec<Pubkey>)
    requires
        n <= MAXIMUM_SIGNERS,
    ensures
        r@ == array@.subrange(0, n as int),
{
    let mut out: Vec<Pubkey> = Vec::new();
    let mut i: usize = 0;
    while i < n
        invariant
            i <= n <= MAXIMUM_SIGNERS,
            out@ == array@.subrange(0, i as int),
        decreases n - i,
    {
        out.push(array[i]);
        i = i + 1;
        proof {
            assert(out@ =~= array@.subrange(0, i as int));
        }
    }
    out
}

/// Writes the keys of the withdraw authority and of the custodian, each if
/// it signed, to the front of `signers_array`; returns how many.
fn collect_signers_fixed(
    withdraw_authority: &AccountInfo,
    custodian_authority: Option<&AccountInfo>,
    signers_array: &mut [Pubkey; MAXIMUM_SIGNERS],
) -> (r: usize)
    ensures
        r <= 2,
        final(signers_array)@.subrange(0, r as int) == (if withdraw_authority.is_signer {
            seq![withdraw_authority.key]
        } else {
            Seq::<Pubkey>::empty()
        }) + (match custodian_authority {
            Some(c) => if c.is_signer {
                seq![c.key]
            } else {
                Seq::<Pubkey>::empty()
            },
            None => Seq::<Pubkey>::empty(),
        }),
{
    let mut count: usize = 0;
    if withdraw_authority.is_signer && count < MAXIMUM_SIGNERS {
        signers_array[count] = withdraw_authority.key;
        count = count + 1;
    }
    if let Some(custodian) = custodian_authority {
        if custodian.is_signer && count < MAXIMUM_SIGNERS {
            signers_array[count] = custodian.key;
            count = count + 1;
        }
    }
    proof {
        let head = if withdraw_authority.is_signer { seq![withdraw_authority.key] } else { Seq::<Pubkey>::empty() };
        let tail = match custodian_authority {
            Some(c) => if c.is_signer { seq![c.key] } else { Seq::<Pubkey>::empty() },
            None => Seq::<Pubkey>::empty(),
        };
        assert(signers_array@.subrange(0, count as int) =~= head + tail);
    }
    count
}

/// `Ok` where the authority of the given kind is among `signers`, else
/// `MissingRequiredSignature`.
fn check_authority(authorized: &Authorized, signers: &[Pubkey], authority_type: StakeAuthorize) -> (r: Result<(), ProgramError>)
    ensures
        r is Ok <==> signers@.contains(authorized.authority(authority_type)),
        r matches Err(e) ==> e == ProgramError::MissingRequiredSignature,
{
    let required_key = match authority_type {
        StakeAuthorize::Staker => &authorized.staker,
        StakeAuthorize::Withdrawer => &authorized.withdrawer,
    };
    if contains_pubkey(signers, required_key) {
        Ok(())
    } else {
        Err(ProgramError::MissingRequiredSignature)
    }
}

/// Whether the lockup still holds at `clock` for the given custodian.
fn is_lockup_in_force(lockup: &Lockup, clock: &Clock, custodian: Option<Pubkey>) -> (r: bool)
    ensures
        r == spec_is_lockup_in_force(*lockup, *clock, custodian),
{
    let time_passed = clock.unix_timestamp >= lockup.unix_timestamp;
    let epoch_passed = clock.epoch >= lockup.epoch;
    if time_passed && epoch_passed {
        return false;
    }
    if let Some(custodian_key) = custodian {
        if pubkey_eq(&custodian_key, &lockup.custodian) {
            return false;
        }
    }
    true
}

/// Stake still held back at `current_epoch`.
fn calculate_remaining_stake(stake: &Stake, current_epoch: u64) -> (r: u64)
    ensures
        r == spec_remaining_stake(*stake, current_epoch),
{
    let deactivation_epoch = stake.delegation.deactivation_epoch;
    let stake_amount = stake.delegation.stake;
    if current_epoch >= deactivation_epoch {
        let epochs_since_deactivation = current_epoch - deactivation_epoch;
        if epochs_since_deactivation >= 1 {
            0
        } else {
            stake_amount
        }
    } else {
        stake_amount
    }
}

/// Moves `lamports` from account `from` to account `to`.
fn transfer_lamports(accounts: &mut Vec<AccountInfo>, from: usize, to: usize, lamports: u64) -> (r: Result<(), ProgramError>)
    requires
        from < old(accounts)@.len(),
        to < old(accounts)@.len(),
    ensures
        final(accounts)@.len() == old(accounts)@.len(),
        r is Err ==> states(final(accounts)@) == states(old(accounts)@),
        match spec_relocate(states(old(accounts)@), from as int, to as int, lamports) {
            Ok(s) => r is Ok && states(final(accounts)@) == s,
            Err(e) => r == Err::<(), ProgramError>(e),
        },
{
    let ghost before = states(accounts@);
    if accounts[from].lamports < lamports {
        return Err(ProgramError::InsufficientFunds);
    }
    if from != to && accounts[to].lamports.checked_add(lamports).is_none() {
        return Err(ProgramError::ArithmeticOverflow);
    }
    let remaining = match accounts[from].lamports.checked_sub(lamports) {
        Some(v) => v,
        None => {
            return Err(ProgramError::ArithmeticOverflow);
        },
    };
    accounts[from].lamports = remaining;
    let ghost taken = states(accounts@);
    proof {
        assert(taken =~= before.update(from as int, with_lamports(before[from as int], remaining)));
    }
    match accounts[to].lamports.checked_add(lamports) {
        Some(v) => {
            accounts[to].lamports = v;
            proof {
                assert(states(accounts@) =~= taken.update(to as int, with_lamports(taken[to as int], v)));
            }
            Ok(())
        },
        None => Err(ProgramError::ArithmeticOverflow),
    }
}

} // verus!
