//! `Merge`: fold one stake account into another.
use vstd::prelude::*;

use crate::error::ProgramError;
use crate::helpers::utils::{
    get_stake_state, lemma_relocate_conserves, relocate_lamports, set_stake_state_at, spec_get_stake_state, spec_relocate,
};
use crate::instruction::{collect_signer_keys, lemma_store_keeps_lamports, spec_signers, spec_store};
use crate::pubkey::{contains_pubkey, pubkey_eq};
use crate::state::account_info::{
    copy_accounts, same_layout, states, total_lamports, AccountInfo, AccountState,
};
use crate::helpers::merge::is_rounded_up_weighted_average;
use crate::state::delegation::{Delegation, Stake};
use crate::state::merge_kind::{lemma_merge_adds_stakes, spec_get_if_mergeable, spec_merge, spec_metas_can_merge, MergeKind};
use crate::state::stake_flag::StakeFlags;
use crate::state::state::Meta;
use crate::state::stake_history::{StakeActivationStatus, StakeHistoryEntry};
use crate::state::stake_state_v2::{spec_deserialize, StakeStateV2};
use crate::sysvars::{spec_clock_from_account, Clock};

verus! {

/// What `Merge` gives, with `dst_status` and `src_status` the activation
/// statuses of the two delegations at the current epoch. Accounts: the
/// destination and the source stake account (distinct, owned by the
/// program, writable), the clock sysvar and the stake history; the
/// destination's staker must sign. Both accounts must classify as
/// mergeable, with compatible metadata; the destination takes the merged
/// state (where it changes), the source becomes uninitialized and all its
/// lamports move to the destination.
pub open spec fn spec_process_merge(accs: Seq<AccountState>, dst_status: StakeActivationStatus, src_status: StakeActivationStatus) -> Result<Seq<AccountState>, ProgramError> {
    if accs.len() < 4 {
        Err(ProgramError::NotEnoughAccountKeys)
    } else if accs[0].key == accs[1].key {
        Err(ProgramError::InvalidArgument)
    } else if accs[0].owner != crate::ID || accs[1].owner != crate::ID {
        Err(ProgramError::InvalidAccountOwner)
    } else if !accs[0].is_writable || !accs[1].is_writable {
        Err(ProgramError::InvalidAccountData)
    } else {
        match spec_clock_from_account(accs[2]) {
            Err(e) => Err(e),
            Ok(clock) => match spec_signers(accs) {
                Err(e) => Err(e),
                Ok(signers) => match spec_get_stake_state(accs[0]) {
                    Err(e) => Err(e),
                    Ok(dst_state) => match spec_get_if_mergeable(dst_state, accs[0].lamports, clock, dst_status) {
                        Err(e) => Err(e),
                        Ok(dst_kind) => {
                            if !signers.contains(dst_kind.spec_meta().authorized.staker) {
                                Err(ProgramError::MissingRequiredSignature)
                            } else {
                                match spec_get_stake_state(accs[1]) {
                                    Err(e) => Err(e),
                                    Ok(src_state) => match spec_get_if_mergeable(src_state, accs[1].lamports, clock, src_status) {
                                        Err(e) => Err(e),
                                        Ok(src_kind) => {
                                            if !spec_metas_can_merge(dst_kind.spec_meta(), src_kind.spec_meta(), clock) {
                                                Err(ProgramError::InvalidAccountData)
                                            } else {
                                                match spec_merge(dst_kind, src_kind) {
                                                    Err(e) => Err(e),
                                                    Ok(merged) => {
                                                        let stored = match merged {
                                                            Some(s) => spec_store(accs, 0, s),
                                                            None => Ok(accs),
                                                        };
                                                        match stored {
                                                            Err(e) => Err(e),
                                                            Ok(a1) => match spec_store(a1, 1, StakeStateV2::Uninitialized) {
                                                                Err(e) => Err(e),
                                                                Ok(a2) => spec_relocate(a2, 1, 0, a2[1].lamports),
                                                            },
                                                        }
                                                    },
                                                }
                                            }
                                        },
                                    },
                                }
                            }
                        },
                    },
                },
            },
        }
    }
}

/// A merge moves every lamport of the source into the destination: the
/// destination's balance becomes the sum of both, the source is left empty
/// and uninitialized, the other accounts stay as they were, and the total
/// is kept.
pub proof fn lemma_merge_moves_all_lamports(
    accs: Seq<AccountState>,
    dst_status: StakeActivationStatus,
    src_status: StakeActivationStatus,
)
    requires
        spec_process_merge(accs, dst_status, src_status) is Ok,
    ensures
        spec_process_merge(accs, dst_status, src_status) matches Ok(t) && {
            &&& t.len() == accs.len()
            &&& t[0].lamports == accs[0].lamports + accs[1].lamports
            &&& t[1].lamports == 0
            &&& spec_deserialize(t[1].data) == Ok::<StakeStateV2, ProgramError>(StakeStateV2::Uninitialized)
            &&& total_lamports(t) == total_lamports(accs)
            &&& same_layout(accs, t)
            &&& forall|j: int| 2 <= j < accs.len() ==> #[trigger] t[j] == accs[j]
        },
{
    let clock = spec_clock_from_account(accs[2])->Ok_0;
    let dst_kind = spec_get_if_mergeable(spec_get_stake_state(accs[0])->Ok_0, accs[0].lamports, clock, dst_status)->Ok_0;
    let src_kind = spec_get_if_mergeable(spec_get_stake_state(accs[1])->Ok_0, accs[1].lamports, clock, src_status)->Ok_0;
    let merged = spec_merge(dst_kind, src_kind)->Ok_0;
    let a1 = match merged {
        Some(st) => spec_store(accs, 0, st)->Ok_0,
        None => accs,
    };
    if let Some(st) = merged {
        lemma_store_keeps_lamports(accs, 0, st);
    }
    lemma_store_keeps_lamports(a1, 1, StakeStateV2::Uninitialized);
    let a2 = spec_store(a1, 1, StakeStateV2::Uninitialized)->Ok_0;
    lemma_relocate_conserves(a2, 1, 0, a2[1].lamports);
}

/// Merging two fully active stakes: the destination keeps its metadata and
/// delegation, delegates both stakes added up, observes the average of the
/// two credits each weighted by its own stake (rounded up), and holds both
/// balances; the source is left empty and uninitialized.
pub proof fn lemma_merge_of_active_stakes(
    accs: Seq<AccountState>,
    dm: Meta,
    ds: Stake,
    df: StakeFlags,
    sm: Meta,
    ss: Stake,
    sf: StakeFlags,
)
    requires
        spec_get_stake_state(accs[0]) == Ok::<StakeStateV2, ProgramError>(StakeStateV2::Stake(dm, ds, df)),
        spec_get_stake_state(accs[1]) == Ok::<StakeStateV2, ProgramError>(StakeStateV2::Stake(sm, ss, sf)),
        ds.delegation.stake > 0,
        ss.delegation.stake > 0,
        spec_process_merge(
            accs,
            StakeHistoryEntry { effective: ds.delegation.stake, activating: 0, deactivating: 0 },
            StakeHistoryEntry { effective: ss.delegation.stake, activating: 0, deactivating: 0 },
        ) is Ok,
    ensures
        spec_process_merge(
            accs,
            StakeHistoryEntry { effective: ds.delegation.stake, activating: 0, deactivating: 0 },
            StakeHistoryEntry { effective: ss.delegation.stake, activating: 0, deactivating: 0 },
        ) matches Ok(t) && {
            &&& t[0].lamports == accs[0].lamports + accs[1].lamports
            &&& spec_deserialize(t[0].data) matches Ok(StakeStateV2::Stake(m, s, _)) && {
                &&& m == dm
                &&& s.delegation == (Delegation { stake: (ds.delegation.stake + ss.delegation.stake) as u64, ..ds.delegation })
                &&& s.delegation.stake == ds.delegation.stake + ss.delegation.stake
                &&& is_rounded_up_weighted_average(
                    s.credits_observed as int,
                    ds.credits_observed as int,
                    ds.delegation.stake as int,
                    ss.credits_observed as int,
                    ss.delegation.stake as int,
                )
            }
        },
{
    let dst_status = StakeHistoryEntry { effective: ds.delegation.stake, activating: 0, deactivating: 0 };
    let src_status = StakeHistoryEntry { effective: ss.delegation.stake, activating: 0, deactivating: 0 };
    lemma_merge_moves_all_lamports(accs, dst_status, src_status);
    let clock = spec_clock_from_account(accs[2])->Ok_0;
    let dst_kind = spec_get_if_mergeable(spec_get_stake_state(accs[0])->Ok_0, accs[0].lamports, clock, dst_status)->Ok_0;
    let src_kind = spec_get_if_mergeable(spec_get_stake_state(accs[1])->Ok_0, accs[1].lamports, clock, src_status)->Ok_0;
    assert(dst_kind == MergeKind::FullyActive(dm, ds));
    assert(src_kind == MergeKind::FullyActive(sm, ss));
    lemma_merge_adds_stakes(dst_kind, src_kind);
    let st = spec_merge(dst_kind, src_kind)->Ok_0->Some_0;
    lemma_store_keeps_lamports(accs, 0, st);
    let a1 = spec_store(accs, 0, st)->Ok_0;
    lemma_store_keeps_lamports(a1, 1, StakeStateV2::Uninitialized);
    let a2 = spec_store(a1, 1, StakeStateV2::Uninitialized)->Ok_0;
    lemma_relocate_conserves(a2, 1, 0, a2[1].lamports);
}

/// Merges the source stake account into the destination.
/// A refusal leaves every account as it was, whatever step refused.
pub fn process_merge(accounts: &mut Vec<AccountInfo>, dst_status: &StakeActivationStatus, src_status: &StakeActivationStatus) -> (r: Result<(), ProgramError>)
    ensures
        final(accounts)@.len() == old(accounts)@.len(),
        r is Err ==> states(final(accounts)@) == states(old(accounts)@),
        match spec_process_merge(states(old(accounts)@), *dst_status, *src_status) {
            Ok(s) => r is Ok && states(final(accounts)@) == s,
            Err(e) => r == Err::<(), ProgramError>(e),
        },
{
    let saved = copy_accounts(accounts);
    let r = merge_steps(accounts, dst_status, src_status);
    if r.is_err() {
        *accounts = saved;
    }
    r
}

/// The steps of `process_merge`, which may have written to the accounts when they fail.
fn merge_steps(accounts: &mut Vec<AccountInfo>, dst_status: &StakeActivationStatus, src_status: &StakeActivationStatus) -> (r: Result<(), ProgramError>)
    ensures
        final(accounts)@.len() == old(accounts)@.len(),
        match spec_process_merge(states(old(accounts)@), *dst_status, *src_status) {
            Ok(s) => r is Ok && states(final(accounts)@) == s,
            Err(e) => r == Err::<(), ProgramError>(e),
        },
{
    if accounts.len() < 4 {
        return Err(ProgramError::NotEnoughAccountKeys);
    }
    if pubkey_eq(&accounts[0].key, &accounts[1].key) {
        return Err(ProgramError::InvalidArgument);
    }
    if !pubkey_eq(&accounts[0].owner, &crate::ID) || !pubkey_eq(&accounts[1].owner, &crate::ID) {
        return Err(ProgramError::InvalidAccountOwner);
    }
    if !accounts[0].is_writable || !accounts[1].is_writable {
        return Err(ProgramError::InvalidAccountData);
    }
    let clock = Clock::from_account_info(&accounts[2])?;
    let signers = collect_signer_keys(accounts)?;
    let dst_state = get_stake_state(&accounts[0])?;
    let dst_kind = MergeKind::get_if_mergeable(&dst_state, accounts[0].lamports, &clock, dst_status)?;
    if !contains_pubkey(signers.as_slice(), &dst_kind.meta().authorized.staker) {
        return Err(ProgramError::MissingRequiredSignature);
    }
    let src_state = get_stake_state(&accounts[1])?;
    let src_kind = MergeKind::get_if_mergeable(&src_state, accounts[1].lamports, &clock, src_status)?;
    MergeKind::metas_can_merge(dst_kind.meta(), src_kind.meta(), &clock)?;
    if let Some(merged_state) = dst_kind.merge(src_kind, &clock)? {
        set_stake_state_at(accounts, 0, &merged_state)?;
    }
    set_stake_state_at(accounts, 1, &StakeStateV2::Uninitialized)?;
    let src_lamports = accounts[1].lamports;
    relocate_lamports(accounts, 1, 0, src_lamports)
}

} // verus!
