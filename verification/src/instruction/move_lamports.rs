//! `MoveLamports`: move lamports that back no stake between stake accounts.
use vstd::prelude::*;

use crate::error::{spec_to_program_error, to_program_error, ProgramError, StakeError};
use crate::helpers::merge::{move_stake_or_lamports_shared_checks, spec_deactivating, spec_shared_checks};
use crate::helpers::utils::{
    get_stake_state, lemma_relocate_conserves, relocate_lamports, sat_sub, spec_get_stake_state, spec_relocate,
};
use crate::pubkey::pubkey_eq;
use crate::state::account_info::{
    copy_accounts, same_layout, states, total_lamports, with_lamports, AccountInfo, AccountState,
};
use crate::state::accounts::authorized_eq;
use crate::state::merge_kind::MergeKind;
use crate::state::stake_history::StakeActivationStatus;
use crate::state::stake_state_v2::StakeStateV2;
use crate::sysvars::Clock;

verus! {

/// Whether an account may take part in `MoveLamports`: it loads as an
/// initialized account or a stake that is not deactivating; the error otherwise.
pub open spec fn spec_move_lamports_precheck(a: AccountState, clock: Clock) -> Result<(), ProgramError> {
    match spec_get_stake_state(a) {
        Err(e) => Err(e),
        Ok(StakeStateV2::Stake(m, s, f)) => if spec_deactivating(StakeStateV2::Stake(m, s, f), clock.epoch) {
            Err(spec_to_program_error(StakeError::MergeMismatch))
        } else {
            Ok(())
        },
        Ok(StakeStateV2::Initialized(_)) => Ok(()),
        Ok(_) => Err(ProgramError::InvalidAccountData),
    }
}

/// Lamports of the source that back neither stake nor reserve: for a fully
/// active source, its balance less stake and reserve; for an inactive one,
/// its balance less reserve (both saturating); `None` for an activating one.
pub open spec fn spec_free_lamports(kind: MergeKind, balance: u64) -> Option<u64> {
    match kind {
        MergeKind::FullyActive(meta, stake) => Some(sat_sub(sat_sub(balance, stake.delegation.stake), meta.rent_exempt_reserve)),
        MergeKind::Inactive(meta, source_lamports, _) => Some(sat_sub(source_lamports, meta.rent_exempt_reserve)),
        MergeKind::ActivationEpoch(_, _, _) => None,
    }
}

/// What `MoveLamports` gives at `clock`. Accounts: the source and the
/// destination stake account, and the source's staker, signing. Both
/// accounts must pass the shared move checks (metadata compatible, loose
/// classification allowed) and have the same authorities; at most the
/// source's free lamports move, and both accounts must keep their reserves.
pub open spec fn spec_process_move_lamports(
    accs: Seq<AccountState>,
    lamports: u64,
    clock: Clock,
    source_status: StakeActivationStatus,
    destination_status: StakeActivationStatus,
) -> Result<Seq<AccountState>, ProgramError> {
    if accs.len() < 3 {
        Err(ProgramError::NotEnoughAccountKeys)
    } else {
        match spec_move_lamports_precheck(accs[0], clock) {
            Err(e) => Err(e),
            Ok(_) => match spec_move_lamports_precheck(accs[1], clock) {
                Err(e) => Err(e),
                Ok(_) => match spec_shared_checks(accs[0], lamports, accs[1], accs[2], true, false, clock, source_status, destination_status) {
                    Err(e) => Err(e),
                    Ok((source_kind, dest_kind)) => {
                        if source_kind.spec_meta().authorized != dest_kind.spec_meta().authorized {
                            Err(spec_to_program_error(StakeError::MergeMismatch))
                        } else if source_kind.spec_meta().authorized.staker != accs[2].key {
                            Err(ProgramError::MissingRequiredSignature)
                        } else {
                            match spec_free_lamports(source_kind, accs[0].lamports) {
                                None => Err(spec_to_program_error(StakeError::MergeMismatch)),
                                Some(free) => {
                                    if lamports > free {
                                        Err(ProgramError::InvalidArgument)
                                    } else {
                                        match spec_relocate(accs, 0, 1, lamports) {
                                            Err(e) => Err(e),
                                            Ok(moved) => {
                                                if moved[0].lamports < source_kind.spec_meta().rent_exempt_reserve
                                                    || moved[1].lamports < dest_kind.spec_meta().rent_exempt_reserve {
                                                    Err(ProgramError::InvalidArgument)
                                                } else {
                                                    Ok(moved)
                                                }
                                            },
                                        }
                                    }
                                },
                            }
                        }
                    },
                },
            },
        }
    }
}

/// `MoveLamports` moves exactly the requested lamports from the source to
/// the destination: only those two balances change, and the total is kept.
pub proof fn lemma_move_lamports_moves_exactly(
    accs: Seq<AccountState>,
    lamports: u64,
    clock: Clock,
    source_status: StakeActivationStatus,
    destination_status: StakeActivationStatus,
)
    requires
        spec_process_move_lamports(accs, lamports, clock, source_status, destination_status) is Ok,
    ensures
        spec_process_move_lamports(accs, lamports, clock, source_status, destination_status) matches Ok(t) && {
            &&& t.len() == accs.len()
            &&& t[0].lamports == accs[0].lamports - lamports
            &&& t[1].lamports == accs[1].lamports + lamports
            &&& total_lamports(t) == total_lamports(accs)
            &&& same_layout(accs, t)
            &&& forall|j: int| 0 <= j < accs.len() ==> #[trigger] t[j] == with_lamports(accs[j], t[j].lamports)
            &&& forall|j: int| 2 <= j < accs.len() ==> #[trigger] t[j] == accs[j]
        },
{
    lemma_relocate_conserves(accs, 0, 1, lamports);
}

/// Only free lamports move: a fully active source keeps at least its
/// delegated stake plus its reserve, any other source its reserve, and the
/// destination ends with at least its own reserve. The two accounts share
/// their authorities, and the third account is the source's staker.
pub proof fn lemma_move_lamports_keeps_stake_and_reserves(
    accs: Seq<AccountState>,
    lamports: u64,
    clock: Clock,
    source_status: StakeActivationStatus,
    destination_status: StakeActivationStatus,
)
    requires
        spec_process_move_lamports(accs, lamports, clock, source_status, destination_status) is Ok,
    ensures
        spec_process_move_lamports(accs, lamports, clock, source_status, destination_status) matches Ok(t)
            && spec_shared_checks(accs[0], lamports, accs[1], accs[2], true, false, clock, source_status, destination_status) matches Ok((sk, dk)) && {
            &&& t[0].lamports >= sk.spec_meta().rent_exempt_reserve
            &&& t[1].lamports >= dk.spec_meta().rent_exempt_reserve
            &&& sk matches MergeKind::FullyActive(m, st) ==> t[0].lamports >= st.delegation.stake + m.rent_exempt_reserve
            &&& sk.spec_meta().authorized == dk.spec_meta().authorized
            &&& sk.spec_meta().authorized.staker == accs[2].key
        },
{
    lemma_relocate_conserves(accs, 0, 1, lamports);
    crate::helpers::merge::lemma_shared_checks_admit_only_authorized(
        accs[0], lamports, accs[1], accs[2], true, false, clock, source_status, destination_status);
}

fn move_lamports_precheck(ai: &AccountInfo, clock: &Clock) -> (r: Result<(), ProgramError>)
    ensures
        r == spec_move_lamports_precheck(ai@, *clock),
{
    match get_stake_state(ai)? {
        StakeStateV2::Stake(_, stake, _) => {
            let deact = stake.delegation.deactivation_epoch;
            if deact != u64::MAX && clock.epoch <= deact {
                return Err(to_program_error(StakeError::MergeMismatch));
            }
            Ok(())
        },
        StakeStateV2::Initialized(_) => Ok(()),
        _ => Err(ProgramError::InvalidAccountData),
    }
}

/// Moves `lamports` from the source to the destination stake account, at `clock`.
/// A refusal leaves every account as it was, whatever step refused.
pub fn process_move_lamports(
    accounts: &mut Vec<AccountInfo>,
    lamports: u64,
    clock: &Clock,
    source_status: &StakeActivationStatus,
    destination_status: &StakeActivationStatus,
) -> (r: Result<(), ProgramError>)
    ensures
        final(accounts)@.len() == old(accounts)@.len(),
        r is Err ==> states(final(accounts)@) == states(old(accounts)@),
        match spec_process_move_lamports(states(old(accounts)@), lamports, *clock, *source_status, *destination_status) {
            Ok(s) => r is Ok && states(final(accounts)@) == s,
            Err(e) => r == Err::<(), ProgramError>(e),
        },
{
    let saved = copy_accounts(accounts);
    let r = move_lamports_steps(accounts, lamports, clock, source_status, destination_status);
    if r.is_err() {
        *accounts = saved;
    }
    r
}

/// The steps of `process_move_lamports`, which may have written to the accounts when they fail.
fn move_lamports_steps(
    accounts: &mut Vec<AccountInfo>,
    lamports: u64,
    clock: &Clock,
    source_status: &StakeActivationStatus,
    destination_status: &StakeActivationStatus,
) -> (r: Result<(), ProgramError>)
    ensures
        final(accounts)@.len() == old(accounts)@.len(),
        match spec_process_move_lamports(states(old(accounts)@), lamports, *clock, *source_status, *destination_status) {
            Ok(s) => r is Ok && states(final(accounts)@) == s,
            Err(e) => r == Err::<(), ProgramError>(e),
        },
{
    if accounts.len() < 3 {
        return Err(ProgramError::NotEnoughAccountKeys);
    }
    move_lamports_precheck(&accounts[0], clock)?;
    move_lamports_precheck(&accounts[1], clock)?;
    let (source_kind, dest_kind) = move_stake_or_lamports_shared_checks(
        &accounts[0],
        lamports,
        &accounts[1],
        &accounts[2],
        true,
        false,
        clock,
        source_status,
        destination_status,
    )?;
    if !authorized_eq(&source_kind.meta().authorized, &dest_kind.meta().authorized) {
        return Err(to_program_error(StakeError::MergeMismatch));
    }
    if !pubkey_eq(&source_kind.meta().authorized.staker, &accounts[2].key) {
        return Err(ProgramError::MissingRequiredSignature);
    }
    let source_free_lamports = match source_kind {
        MergeKind::FullyActive(meta, stake) => {
            accounts[0].lamports.saturating_sub(stake.delegation.stake).saturating_sub(meta.rent_exempt_reserve)
        },
        MergeKind::Inactive(meta, source_lamports, _flags) => source_lamports.saturating_sub(meta.rent_exempt_reserve),
        _ => {
            return Err(to_program_error(StakeError::MergeMismatch));
        },
    };
    if lamports > source_free_lamports {
        return Err(ProgramError::InvalidArgument);
    }
    relocate_lamports(accounts, 0, 1, lamports)?;
    if accounts[0].lamports < source_kind.meta().rent_exempt_reserve || accounts[1].lamports < dest_kind.meta().rent_exempt_reserve {
        return Err(ProgramError::InvalidArgument);
    }
    Ok(())
}

} // verus!
