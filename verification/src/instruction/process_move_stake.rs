//! `MoveStake`: move active stake between stake accounts.
use vstd::prelude::*;

use crate::error::{spec_to_program_error, to_program_error, ProgramError, StakeError};
use crate::helpers::merge::{
    merge_delegation_stake_and_credits_observed, move_stake_or_lamports_shared_checks, spec_deactivating,
    is_rounded_up_weighted_average, lemma_merge_weights_credits_by_own_stake, spec_merge_delegation_stake_and_credits_observed,
    spec_shared_checks,
};
use crate::helpers::utils::{
    get_minimum_delegation, get_stake_state, lemma_relocate_conserves, relocate_lamports, set_stake_state_at,
    spec_get_stake_state, spec_minimum_delegation, spec_relocate,
};
use crate::instruction::{lemma_store_keeps_lamports, spec_store};
use crate::pubkey::pubkey_eq;
use crate::state::account_info::{
    copy_accounts, same_layout, states, total_lamports, AccountInfo, AccountState,
};
use crate::state::delegation::{Delegation, Stake};
use crate::state::merge_kind::MergeKind;
use crate::state::stake_flag::StakeFlags;
use crate::state::stake_history::StakeActivationStatus;
use crate::state::stake_state_v2::{spec_deserialize, StakeStateV2};
use crate::state::state::Meta;
use crate::sysvars::Clock;

verus! {

/// Whether an account loads as uninitialized.
pub open spec fn loads_uninitialized(a: AccountState) -> bool {
    spec_get_stake_state(a) matches Ok(StakeStateV2::Uninitialized)
}

/// What writing the destination gives for a move of `lamports` of stake out
/// of `source_stake`: a fully active destination on the same vote account
/// absorbs the stake (reweighting credits); an inactive one becomes a copy of
/// the source's delegation holding the moved stake. The destination's new
/// state and metadata, or the error.
pub open spec fn spec_move_stake_destination(
    accs: Seq<AccountState>,
    destination_kind: MergeKind,
    source_stake: Stake,
    lamports: u64,
) -> Result<(Seq<AccountState>, Meta), ProgramError> {
    let minimum = spec_minimum_delegation();
    match destination_kind {
        MergeKind::FullyActive(dmeta, dstake) => {
            if source_stake.delegation.voter_pubkey != dstake.delegation.voter_pubkey {
                Err(spec_to_program_error(StakeError::VoteAddressMismatch))
            } else if dstake.delegation.stake + lamports > u64::MAX {
                Err(ProgramError::ArithmeticOverflow)
            } else if dstake.delegation.stake + lamports < minimum {
                Err(ProgramError::InvalidArgument)
            } else {
                match spec_merge_delegation_stake_and_credits_observed(dstake, lamports, source_stake.credits_observed) {
                    Err(e) => Err(e),
                    Ok(merged) => match spec_store(accs, 1, StakeStateV2::Stake(dmeta, merged, StakeFlags { bits: 0 })) {
                        Err(e) => Err(e),
                        Ok(a) => Ok((a, dmeta)),
                    },
                }
            }
        },
        MergeKind::Inactive(dmeta, _, _) => {
            if lamports < minimum {
                Err(ProgramError::InvalidArgument)
            } else {
                let moved = Stake { delegation: Delegation { stake: lamports, ..source_stake.delegation }, ..source_stake };
                match spec_store(accs, 1, StakeStateV2::Stake(dmeta, moved, StakeFlags { bits: 0 })) {
                    Err(e) => Err(e),
                    Ok(a) => Ok((a, dmeta)),
                }
            }
        },
        _ => Err(spec_to_program_error(StakeError::MergeMismatch)),
    }
}

/// What `MoveStake` gives at `clock`. Accounts: the source and the
/// destination stake account, and the source's staker, signing. Neither
/// account may be uninitialized; both pass the shared move checks
/// (mergeable, metadata compatible); both hold exactly 194 bytes; the source
/// is fully active and keeps either no stake or at least the minimum
/// delegation. The destination takes the stake, the source keeps the rest
/// (becoming initialized if none is left), the lamports follow, and both
/// accounts keep their reserves.
pub open spec fn spec_process_move_stake(
    accs: Seq<AccountState>,
    lamports: u64,
    clock: Clock,
    source_status: StakeActivationStatus,
    destination_status: StakeActivationStatus,
) -> Result<Seq<AccountState>, ProgramError> {
    let minimum = spec_minimum_delegation();
    if accs.len() < 3 {
        Err(ProgramError::NotEnoughAccountKeys)
    } else if loads_uninitialized(accs[0]) || loads_uninitialized(accs[1]) {
        Err(ProgramError::InvalidAccountData)
    } else {
        match spec_shared_checks(accs[0], lamports, accs[1], accs[2], true, true, clock, source_status, destination_status) {
            Err(e) => Err(e),
            Ok((source_kind, destination_kind)) => {
                if spec_get_stake_state(accs[1]) matches Ok(s) && spec_deactivating(s, clock.epoch) {
                    Err(spec_to_program_error(StakeError::MergeMismatch))
                } else if accs[0].data.len() != 194 || accs[1].data.len() != 194 {
                    Err(ProgramError::InvalidAccountData)
                } else {
                    match source_kind {
                        MergeKind::FullyActive(source_meta, source_stake) => {
                            if source_stake.delegation.stake < lamports {
                                Err(ProgramError::InvalidArgument)
                            } else {
                                let source_final = (source_stake.delegation.stake - lamports) as u64;
                                if source_final != 0 && source_final < minimum {
                                    Err(ProgramError::InvalidArgument)
                                } else {
                                    match spec_move_stake_destination(accs, destination_kind, source_stake, lamports) {
                                        Err(e) => Err(e),
                                        Ok((a1, destination_meta)) => {
                                            let source_state = if source_final == 0 {
                                                StakeStateV2::Initialized(source_meta)
                                            } else {
                                                StakeStateV2::Stake(
                                                    source_meta,
                                                    Stake { delegation: Delegation { stake: source_final, ..source_stake.delegation }, ..source_stake },
                                                    StakeFlags { bits: 0 },
                                                )
                                            };
                                            match spec_store(a1, 0, source_state) {
                                                Err(e) => Err(e),
                                                Ok(a2) => match spec_relocate(a2, 0, 1, lamports) {
                                                    Err(e) => Err(e),
                                                    Ok(a3) => {
                                                        if a3[0].lamports < source_meta.rent_exempt_reserve
                                                            || a3[1].lamports < destination_meta.rent_exempt_reserve {
                                                            Err(ProgramError::InvalidArgument)
                                                        } else {
                                                            Ok(a3)
                                                        }
                                                    },
                                                },
                                            }
                                        },
                                    }
                                }
                            }
                        },
                        _ => Err(spec_to_program_error(StakeError::MergeMismatch)),
                    }
                }
            },
        }
    }
}

/// `MoveStake` moves exactly the requested lamports from the source to the
/// destination: only those two balances change, the other accounts stay as
/// they were, and the total is kept. The source's delegated stake falls by
/// exactly that amount; a source left with none becomes initialized with
/// its metadata.
pub proof fn lemma_move_stake_moves_exactly(
    accs: Seq<AccountState>,
    lamports: u64,
    clock: Clock,
    source_status: StakeActivationStatus,
    destination_status: StakeActivationStatus,
)
    requires
        spec_process_move_stake(accs, lamports, clock, source_status, destination_status) is Ok,
    ensures
        spec_process_move_stake(accs, lamports, clock, source_status, destination_status) matches Ok(t) && {
            &&& t.len() == accs.len()
            &&& t[0].lamports == accs[0].lamports - lamports
            &&& t[1].lamports == accs[1].lamports + lamports
            &&& total_lamports(t) == total_lamports(accs)
            &&& same_layout(accs, t)
            &&& forall|j: int| 2 <= j < accs.len() ==> #[trigger] t[j] == accs[j]
            &&& spec_get_stake_state(accs[0]) matches Ok(StakeStateV2::Stake(m0, s0, _)) && (if s0.delegation.stake
                == lamports {
                spec_deserialize(t[0].data) == Ok::<StakeStateV2, ProgramError>(StakeStateV2::Initialized(m0))
            } else {
                spec_deserialize(t[0].data) matches Ok(StakeStateV2::Stake(m1, s1, _)) && m1 == m0
                    && s1.delegation.stake == s0.delegation.stake - lamports
            })
        },
{
    let (source_kind, destination_kind) = spec_shared_checks(
        accs[0], lamports, accs[1], accs[2], true, true, clock, source_status, destination_status)->Ok_0;
    let source_meta = source_kind->FullyActive_0;
    let source_stake = source_kind->FullyActive_1;
    let source_final = (source_stake.delegation.stake - lamports) as u64;
    let minimum = spec_minimum_delegation();
    match destination_kind {
        MergeKind::FullyActive(dmeta, dstake) => {
            let merged = spec_merge_delegation_stake_and_credits_observed(dstake, lamports, source_stake.credits_observed)->Ok_0;
            lemma_store_keeps_lamports(accs, 1, StakeStateV2::Stake(dmeta, merged, StakeFlags { bits: 0 }));
        },
        MergeKind::Inactive(dmeta, _, _) => {
            let moved = Stake { delegation: Delegation { stake: lamports, ..source_stake.delegation }, ..source_stake };
            lemma_store_keeps_lamports(accs, 1, StakeStateV2::Stake(dmeta, moved, StakeFlags { bits: 0 }));
        },
        _ => {},
    }
    let a1 = spec_move_stake_destination(accs, destination_kind, source_stake, lamports)->Ok_0.0;
    let source_state = if source_final == 0 {
        StakeStateV2::Initialized(source_meta)
    } else {
        StakeStateV2::Stake(
            source_meta,
            Stake { delegation: Delegation { stake: source_final, ..source_stake.delegation }, ..source_stake },
            StakeFlags { bits: 0 },
        )
    };
    lemma_store_keeps_lamports(a1, 0, source_state);
    let a2 = spec_store(a1, 0, source_state)->Ok_0;
    lemma_relocate_conserves(a2, 0, 1, lamports);
}

/// Where moved stake lands: a fully active destination keeps its metadata and
/// delegation, its delegated stake grows by the moved lamports and its
/// credits become the average of its own and the source's, each weighted by
/// its own side's stake (rounded up); an inactive destination becomes a copy
/// of the source's stake delegating exactly the moved lamports, under its own
/// metadata.
pub proof fn lemma_move_stake_destination_takes_stake(
    accs: Seq<AccountState>,
    lamports: u64,
    clock: Clock,
    source_status: StakeActivationStatus,
    destination_status: StakeActivationStatus,
)
    requires
        spec_process_move_stake(accs, lamports, clock, source_status, destination_status) is Ok,
    ensures
        spec_process_move_stake(accs, lamports, clock, source_status, destination_status) matches Ok(t)
            && spec_get_stake_state(accs[0]) matches Ok(StakeStateV2::Stake(_, s0, _))
            && spec_shared_checks(accs[0], lamports, accs[1], accs[2], true, true, clock, source_status, destination_status) matches Ok((_, dk))
            && spec_deserialize(t[1].data) matches Ok(StakeStateV2::Stake(m1, s1, _)) && match dk {
            MergeKind::FullyActive(dm, ds) => {
                &&& m1 == dm
                &&& s1.delegation == (Delegation { stake: (ds.delegation.stake + lamports) as u64, ..ds.delegation })
                &&& s1.delegation.stake == ds.delegation.stake + lamports
                &&& is_rounded_up_weighted_average(
                    s1.credits_observed as int,
                    ds.credits_observed as int,
                    ds.delegation.stake as int,
                    s0.credits_observed as int,
                    lamports as int,
                )
            },
            MergeKind::Inactive(dm, _, _) => {
                &&& m1 == dm
                &&& s1 == (Stake { delegation: Delegation { stake: lamports, ..s0.delegation }, ..s0 })
            },
            _ => false,
        },
{
    lemma_move_stake_moves_exactly(accs, lamports, clock, source_status, destination_status);
    let (source_kind, destination_kind) = spec_shared_checks(
        accs[0], lamports, accs[1], accs[2], true, true, clock, source_status, destination_status)->Ok_0;
    let source_meta = source_kind->FullyActive_0;
    let source_stake = source_kind->FullyActive_1;
    let source_final = (source_stake.delegation.stake - lamports) as u64;
    match destination_kind {
        MergeKind::FullyActive(dmeta, dstake) => {
            lemma_merge_weights_credits_by_own_stake(dstake, lamports, source_stake.credits_observed);
            let merged = spec_merge_delegation_stake_and_credits_observed(dstake, lamports, source_stake.credits_observed)->Ok_0;
            lemma_store_keeps_lamports(accs, 1, StakeStateV2::Stake(dmeta, merged, StakeFlags { bits: 0 }));
        },
        MergeKind::Inactive(dmeta, _, _) => {
            let moved = Stake { delegation: Delegation { stake: lamports, ..source_stake.delegation }, ..source_stake };
            lemma_store_keeps_lamports(accs, 1, StakeStateV2::Stake(dmeta, moved, StakeFlags { bits: 0 }));
        },
        _ => {},
    }
    let a1 = spec_move_stake_destination(accs, destination_kind, source_stake, lamports)->Ok_0.0;
    let source_state = if source_final == 0 {
        StakeStateV2::Initialized(source_meta)
    } else {
        StakeStateV2::Stake(
            source_meta,
            Stake { delegation: Delegation { stake: source_final, ..source_stake.delegation }, ..source_stake },
            StakeFlags { bits: 0 },
        )
    };
    lemma_store_keeps_lamports(a1, 0, source_state);
    let a2 = spec_store(a1, 0, source_state)->Ok_0;
    lemma_relocate_conserves(a2, 0, 1, lamports);
}

fn is_uninitialized(ai: &AccountInfo) -> (r: bool)
    ensures
        r == loads_uninitialized(ai@),
{
    match get_stake_state(ai) {
        Ok(StakeStateV2::Uninitialized) => true,
        _ => false,
    }
}

/// Moves `lamports` of stake from the source to the destination stake account, at `clock`.
/// A refusal leaves every account as it was, whatever step refused.
pub fn process_move_stake(
    accounts: &mut Vec<AccountInfo>,
    lamports: u64,
    clock: &Clock,
    source_status: &StakeActivationStatus,
    destination_status: &StakeActivationStatus,
) -> (r: Result<(), ProgramError>)
    ensures
        final(accounts)@.len() == old(accounts)@.len(),
        r is Err ==> states(final(accounts)@) == states(old(accounts)@),
        match spec_process_move_stake(states(old(accounts)@), lamports, *clock, *source_status, *destination_status) {
            Ok(s) => r is Ok && states(final(accounts)@) == s,
            Err(e) => r == Err::<(), ProgramError>(e),
        },
{
    let saved = copy_accounts(accounts);
    let r = move_stake_steps(accounts, lamports, clock, source_status, destination_status);
    if r.is_err() {
        *accounts = saved;
    }
    r
}

/// The steps of `process_move_stake`, which may have written to the accounts when they fail.
fn move_stake_steps(
    accounts: &mut Vec<AccountInfo>,
    lamports: u64,
    clock: &Clock,
    source_status: &StakeActivationStatus,
    destination_status: &StakeActivationStatus,
) -> (r: Result<(), ProgramError>)
    ensures
        final(accounts)@.len() == old(accounts)@.len(),
        match spec_process_move_stake(states(old(accounts)@), lamports, *clock, *source_status, *destination_status) {
            Ok(s) => r is Ok && states(final(accounts)@) == s,
            Err(e) => r == Err::<(), ProgramError>(e),
        },
{
    if accounts.len() < 3 {
        return Err(ProgramError::NotEnoughAccountKeys);
    }
    if is_uninitialized(&accounts[0]) {
        return Err(ProgramError::InvalidAccountData);
    }
    if is_uninitialized(&accounts[1]) {
        return Err(ProgramError::InvalidAccountData);
    }
    let (source_kind, destination_kind) = move_stake_or_lamports_shared_checks(
        &accounts[0],
        lamports,
        &accounts[1],
        &accounts[2],
        true,
        true,
        clock,
        source_status,
        destination_status,
    )?;
    if let Ok(StakeStateV2::Stake(_, stake, _)) = get_stake_state(&accounts[1]) {
        let deact = stake.delegation.deactivation_epoch;
        if deact != u64::MAX && clock.epoch <= deact {
            return Err(to_program_error(StakeError::MergeMismatch));
        }
    }
    if accounts[0].data.len() != StakeStateV2::size_of() || accounts[1].data.len() != StakeStateV2::size_of() {
        return Err(ProgramError::InvalidAccountData);
    }
    let (source_meta, source_stake) = match source_kind {
        MergeKind::FullyActive(m, s) => (m, s),
        _ => return Err(to_program_error(StakeError::MergeMismatch)),
    };
    let minimum_delegation = get_minimum_delegation();
    let source_final_stake = match source_stake.delegation.stake.checked_sub(lamports) {
        Some(v) => v,
        None => return Err(ProgramError::InvalidArgument),
    };
    if source_final_stake != 0 && source_final_stake < minimum_delegation {
        return Err(ProgramError::InvalidArgument);
    }
    let destination_meta = match destination_kind {
        MergeKind::FullyActive(destination_meta, destination_stake) => {
            if !pubkey_eq(&source_stake.delegation.voter_pubkey, &destination_stake.delegation.voter_pubkey) {
                return Err(to_program_error(StakeError::VoteAddressMismatch));
            }
            let destination_final_stake = match destination_stake.delegation.stake.checked_add(lamports) {
                Some(v) => v,
                None => return Err(ProgramError::ArithmeticOverflow),
            };
            if destination_final_stake < minimum_delegation {
                return Err(ProgramError::InvalidArgument);
            }
            let mut destination_stake = destination_stake;
            merge_delegation_stake_and_credits_observed(&mut destination_stake, lamports, source_stake.credits_observed)?;
            set_stake_state_at(accounts, 1, &StakeStateV2::Stake(destination_meta, destination_stake, StakeFlags::empty()))?;
            destination_meta
        },
        MergeKind::Inactive(destination_meta, _lamports, _flags) => {
            if lamports < minimum_delegation {
                return Err(ProgramError::InvalidArgument);
            }
            let mut destination_stake = source_stake;
            destination_stake.delegation.stake = lamports;
            set_stake_state_at(accounts, 1, &StakeStateV2::Stake(destination_meta, destination_stake, StakeFlags::empty()))?;
            destination_meta
        },
        _ => return Err(to_program_error(StakeError::MergeMismatch)),
    };
    if source_final_stake == 0 {
        set_stake_state_at(accounts, 0, &StakeStateV2::Initialized(source_meta))?;
    } else {
        let mut source_stake = source_stake;
        source_stake.delegation.stake = source_final_stake;
        set_stake_state_at(accounts, 0, &StakeStateV2::Stake(source_meta, source_stake, StakeFlags::empty()))?;
    }
    relocate_lamports(accounts, 0, 1, lamports)?;
    if accounts[0].lamports < source_meta.rent_exempt_reserve || accounts[1].lamports < destination_meta.rent_exempt_reserve {
        return Err(ProgramError::InvalidArgument);
    }
    Ok(())
}

} // verus!
