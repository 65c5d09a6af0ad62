//! Weighted credits when stakes combine, and loose classification for moves.
use vstd::prelude::*;

use crate::error::ProgramError;
use crate::state::delegation::{Delegation, Stake};
use crate::state::merge_kind::MergeKind;
use crate::state::stake_flag::StakeFlags;
use crate::state::stake_state_v2::StakeStateV2;
use crate::sysvars::Clock;

verus! {

/// The credits observed by a stake that absorbs `absorbed_lamports` which had
/// observed `absorbed_credits_observed`: unchanged if both observed the same,
/// else the stake-weighted average of the two, rounded up; `None` where the
/// combined stake overflows or is zero.
pub open spec fn spec_stake_weighted_credits_observed(stake: Stake, absorbed_lamports: u64, absorbed_credits_observed: u64) -> Option<u64> {
    let s = stake.delegation.stake;
    let cr = stake.credits_observed;
    let total = s + absorbed_lamports;
    if cr == absorbed_credits_observed {
        Some(cr)
    } else if total > u64::MAX || total == 0 {
        None
    } else {
        Some(((cr * s + absorbed_credits_observed * absorbed_lamports + total - 1) / total) as u64)
    }
}

proof fn lemma_weighted_bounds(cr: u64, s: u64, c: u64, l: u64)
    requires
        s + l <= u64::MAX,
        s + l > 0,
    ensures
        cr * s <= u128::MAX,
        c * l <= u128::MAX,
        cr * s + c * l <= u128::MAX,
        cr * s + c * l + (s + l) <= u128::MAX,
        (cr * s + c * l + (s + l) - 1) / (s + l) <= u64::MAX,
{
    let m: int = u64::MAX as int;
    let t: int = s + l;
    assert(cr * s <= m * s) by (nonlinear_arith)
        requires
            cr <= m,
            s >= 0,
    ;
    assert(c * l <= m * l) by (nonlinear_arith)
        requires
            c <= m,
            l >= 0,
    ;
    assert(m * s + m * l == m * t) by (nonlinear_arith)
        requires
            t == s + l,
    ;
    assert(m * t <= m * m) by (nonlinear_arith)
        requires
            0 <= t <= m,
            m >= 0,
    ;
    assert(m * m + m <= u128::MAX) by (nonlinear_arith)
        requires
            m == u64::MAX,
    ;
    let w: int = cr * s + c * l;
    assert(w + t - 1 < (m + 1) * t) by (nonlinear_arith)
        requires
            w <= m * t,
            t > 0,
    ;
    assert((w + t - 1) / t <= m) by (nonlinear_arith)
        requires
            0 <= w + t - 1 < (m + 1) * t,
            t > 0,
    ;
}

/// The weighted credits lie between the two credits they average: never
/// below the smaller, never above the larger, and equal to both where they
/// agree.
pub proof fn lemma_weighted_credits_between(stake: Stake, absorbed_lamports: u64, absorbed_credits_observed: u64)
    requires
        spec_stake_weighted_credits_observed(stake, absorbed_lamports, absorbed_credits_observed) is Some,
    ensures
        spec_stake_weighted_credits_observed(stake, absorbed_lamports, absorbed_credits_observed) matches Some(r) && {
            let cr = stake.credits_observed;
            let c = absorbed_credits_observed;
            &&& (cr <= c ==> cr <= r <= c)
            &&& (c <= cr ==> c <= r <= cr)
        },
{
    let s = stake.delegation.stake as int;
    let cr = stake.credits_observed as int;
    let l = absorbed_lamports as int;
    let c = absorbed_credits_observed as int;
    if cr != c {
        let t = s + l;
        let w = cr * s + c * l;
        assert(t > 0);
        if cr <= c {
            assert(cr * t <= w <= c * t) by (nonlinear_arith)
                requires
                    t == s + l,
                    w == cr * s + c * l,
                    cr <= c,
                    s >= 0,
                    l >= 0,
            ;
        } else {
            assert(c * t <= w <= cr * t) by (nonlinear_arith)
                requires
                    t == s + l,
                    w == cr * s + c * l,
                    c <= cr,
                    s >= 0,
                    l >= 0,
            ;
        }
        let lo = if cr <= c { cr } else { c };
        let hi = if cr <= c { c } else { cr };
        assert(lo * t <= w <= hi * t);
        assert(lo <= (w + t - 1) / t <= hi) by (nonlinear_arith)
            requires
                t > 0,
                lo * t <= w,
                w <= hi * t,
        {
            assert(lo * t <= w + t - 1);
            assert(w + t - 1 < (hi + 1) * t);
        }
    }
}

/// Whether `r` is the stake-weighted average of credits `cr` (weighted by
/// stake `s`) and `c` (weighted by `l`), rounded up: the least value whose
/// multiple of `s + l` reaches the weighted sum; `cr` itself where the two
/// credits agree.
pub open spec fn is_rounded_up_weighted_average(r: int, cr: int, s: int, c: int, l: int) -> bool {
    if cr == c {
        r == cr
    } else {
        r * (s + l) >= cr * s + c * l && (r - 1) * (s + l) < cr * s + c * l
    }
}

/// The credits observed after absorbing lamports are the stake-weighted
/// average of the two sides, rounded up: each side's credits count with its
/// own stake, the stake's credits with its delegated stake and the absorbed
/// credits with the absorbed lamports. Where the two credits differ, the
/// result is the least value whose multiple of the combined stake reaches that
/// weighted sum; where they agree, it is that value. There is no result only
/// where the credits differ and the combined stake overflows or is zero.
pub proof fn lemma_weighted_credits_is_ceiling_of_average(stake: Stake, absorbed_lamports: u64, absorbed_credits_observed: u64)
    ensures
        ({
            let s = stake.delegation.stake as int;
            let cr = stake.credits_observed as int;
            let l = absorbed_lamports as int;
            let c = absorbed_credits_observed as int;
            match spec_stake_weighted_credits_observed(stake, absorbed_lamports, absorbed_credits_observed) {
                None => cr != c && (s + l > u64::MAX || s + l == 0),
                Some(r) => if cr == c {
                    r == cr
                } else {
                    &&& r * (s + l) >= cr * s + c * l
                    &&& (r - 1) * (s + l) < cr * s + c * l
                },
            }
        }),
{
    let s = stake.delegation.stake as int;
    let cr = stake.credits_observed as int;
    let l = absorbed_lamports as int;
    let c = absorbed_credits_observed as int;
    let t = s + l;
    if cr != c && t <= u64::MAX && t != 0 {
        lemma_weighted_bounds(stake.credits_observed, stake.delegation.stake, absorbed_credits_observed, absorbed_lamports);
        let w = cr * s + c * l;
        assert(w >= 0) by (nonlinear_arith)
            requires
                cr >= 0,
                s >= 0,
                c >= 0,
                l >= 0,
                w == cr * s + c * l,
        ;
        let q = (w + t - 1) / t;
        assert(q * t >= w && (q - 1) * t < w) by (nonlinear_arith)
            requires
                t > 0,
                w >= 0,
                q == (w + t - 1) / t,
        {
            assert(t * q <= w + t - 1 && w + t - 1 < t * q + t) by (nonlinear_arith)
                requires
                    t > 0,
                    w + t - 1 >= 0,
                    q == (w + t - 1) / t,
            ;
        }
    }
}

/// Folding lamports into a stake adds them to the delegated stake, keeps the
/// rest of the delegation, and reweights the credits observed: unchanged
/// where both sides observed the same, else the rounded-up average of the
/// stake's credits weighted by its stake before the merge and the merged
/// credits weighted by the merged lamports.
pub proof fn lemma_merge_weights_credits_by_own_stake(stake: Stake, lamports_to_merge: u64, source_credits_observed: u64)
    requires
        spec_merge_delegation_stake_and_credits_observed(stake, lamports_to_merge, source_credits_observed) is Ok,
    ensures
        spec_merge_delegation_stake_and_credits_observed(stake, lamports_to_merge, source_credits_observed) matches Ok(merged) && {
            let s = stake.delegation.stake as int;
            let cr = stake.credits_observed as int;
            let l = lamports_to_merge as int;
            let c = source_credits_observed as int;
            &&& merged.delegation == (Delegation { stake: (s + l) as u64, ..stake.delegation })
            &&& merged.delegation.stake == s + l
            &&& is_rounded_up_weighted_average(merged.credits_observed as int, cr, s, c, l)
        },
{
    lemma_weighted_credits_is_ceiling_of_average(stake, lamports_to_merge, source_credits_observed);
}

/// Weighted credits observed after absorbing lamports.
pub fn stake_weighted_credits_observed(stake: &Stake, absorbed_lamports: u64, absorbed_credits_observed: u64) -> (r: Option<u64>)
    ensures
        r == spec_stake_weighted_credits_observed(*stake, absorbed_lamports, absorbed_credits_observed),
{
    if stake.credits_observed == absorbed_credits_observed {
        return Some(stake.credits_observed);
    }
    let total_stake_u64 = match stake.delegation.stake.checked_add(absorbed_lamports) {
        Some(t) => t,
        None => return None,
    };
    if total_stake_u64 == 0 {
        return None;
    }
    proof {
        lemma_weighted_bounds(stake.credits_observed, stake.delegation.stake, absorbed_credits_observed, absorbed_lamports);
    }
    let total_stake = total_stake_u64 as u128;
    let stake_weighted_credits = (stake.credits_observed as u128) * (stake.delegation.stake as u128);
    let absorbed_weighted_credits = (absorbed_credits_observed as u128) * (absorbed_lamports as u128);
    let total_weighted_credits = stake_weighted_credits + absorbed_weighted_credits + total_stake - 1;
    let q = total_weighted_credits / total_stake;
    Some(q as u64)
}

/// What folding `lamports_to_merge` into a stake gives: the credits observed
/// become the average of the two credits weighted by the stake before the
/// merge and the lamports merged (`ArithmeticOverflow` where that fails),
/// then the delegated stake grows by the lamports (`InsufficientFunds` on
/// overflow).
pub open spec fn spec_merge_delegation_stake_and_credits_observed(stake: Stake, lamports_to_merge: u64, source_credits_observed: u64) -> Result<Stake, ProgramError> {
    match spec_stake_weighted_credits_observed(stake, lamports_to_merge, source_credits_observed) {
        None => Err(ProgramError::ArithmeticOverflow),
        Some(c) => if stake.delegation.stake + lamports_to_merge > u64::MAX {
            Err(ProgramError::InsufficientFunds)
        } else {
            Ok(Stake {
                delegation: Delegation { stake: (stake.delegation.stake + lamports_to_merge) as u64, ..stake.delegation },
                credits_observed: c,
            })
        },
    }
}

/// Folds lamports into a stake, reweighting its credits observed.
pub fn merge_delegation_stake_and_credits_observed(stake: &mut Stake, lamports_to_merge: u64, source_credits_observed: u64) -> (r: Result<(), ProgramError>)
    ensures
        match spec_merge_delegation_stake_and_credits_observed(*old(stake), lamports_to_merge, source_credits_observed) {
            Ok(s) => r is Ok && *final(stake) == s,
            Err(e) => r == Err::<(), ProgramError>(e),
        },
{
    let credits = match stake_weighted_credits_observed(stake, lamports_to_merge, source_credits_observed) {
        Some(c) => c,
        None => {
            return Err(ProgramError::ArithmeticOverflow);
        },
    };
    stake.delegation.stake = crate::helpers::checked_add(stake.delegation.stake, lamports_to_merge)?;
    stake.credits_observed = credits;
    Ok(())
}

/// How a move classifies an account that is not strictly mergeable: a stake
/// deactivated before the current epoch is inactive, one activated and not
/// deactivating is fully active, any other stake is in its activation epoch;
/// an initialized account is inactive; other states are `InvalidAccountData`.
pub open spec fn spec_classify_loose(state: StakeStateV2, stake_lamports: u64, clock: Clock) -> Result<MergeKind, ProgramError> {
    match state {
        StakeStateV2::Stake(meta, stake, flags) => {
            let act = stake.delegation.activation_epoch;
            let deact = stake.delegation.deactivation_epoch;
            if deact != u64::MAX && clock.epoch > deact {
                Ok(MergeKind::Inactive(meta, stake_lamports, flags))
            } else if clock.epoch >= act && deact == u64::MAX {
                Ok(MergeKind::FullyActive(meta, stake))
            } else {
                Ok(MergeKind::ActivationEpoch(meta, stake, flags))
            }
        },
        StakeStateV2::Initialized(meta) => Ok(MergeKind::Inactive(meta, stake_lamports, StakeFlags { bits: 0 })),
        _ => Err(ProgramError::InvalidAccountData),
    }
}

/// Classifies an account for a move without requiring it to be mergeable.
pub fn classify_loose(state: &StakeStateV2, stake_lamports: u64, clock: &Clock) -> (r: Result<MergeKind, ProgramError>)
    ensures
        r == spec_classify_loose(*state, stake_lamports, *clock),
{
    match state {
        StakeStateV2::Stake(meta, stake, flags) => {
            let act = stake.delegation.activation_epoch;
            let deact = stake.delegation.deactivation_epoch;
            if deact != u64::MAX && clock.epoch > deact {
                Ok(MergeKind::Inactive(*meta, stake_lamports, *flags))
            } else if clock.epoch >= act && deact == u64::MAX {
                Ok(MergeKind::FullyActive(*meta, *stake))
            } else {
                Ok(MergeKind::ActivationEpoch(*meta, *stake, *flags))
            }
        },
        StakeStateV2::Initialized(meta) => Ok(MergeKind::Inactive(*meta, stake_lamports, StakeFlags::empty())),
        _ => Err(ProgramError::InvalidAccountData),
    }
}

} // verus!

verus! {

/// Whether account data starts with the uninitialized tag.
pub open spec fn starts_uninitialized(data: Seq<u8>) -> bool {
    data.len() > 0 && data[0] == 0
}

/// Whether a state is a stake that is deactivating at `epoch` (deactivation
/// scheduled at or after it).
pub open spec fn spec_deactivating(state: StakeStateV2, epoch: u64) -> bool {
    match state {
        StakeStateV2::Stake(_, stake, _) => stake.delegation.deactivation_epoch != u64::MAX
            && epoch <= stake.delegation.deactivation_epoch,
        _ => false,
    }
}

/// How an account classifies for a move: as for merging, or, where that
/// fails and mergeability is not required, loosely.
pub open spec fn spec_move_kind(
    state: StakeStateV2,
    lamports: u64,
    clock: Clock,
    status: crate::state::stake_history::StakeActivationStatus,
    require_mergeable: bool,
) -> Result<MergeKind, ProgramError> {
    match crate::state::merge_kind::spec_get_if_mergeable(state, lamports, clock, status) {
        Ok(k) => Ok(k),
        Err(e) => if require_mergeable {
            Err(e)
        } else {
            spec_classify_loose(state, lamports, clock)
        },
    }
}

/// What the checks shared by `MoveStake` and `MoveLamports` give: the
/// authority signs; the two accounts differ and are writable; the amount is
/// positive; neither holds the uninitialized state; both load, classify,
/// and are not deactivating; the authority is the source's staker; and,
/// where asked, the metadata are compatible. The result is the two kinds.
pub open spec fn spec_shared_checks(
    source: crate::state::account_info::AccountState,
    lamports: u64,
    destination: crate::state::account_info::AccountState,
    stake_authority: crate::state::account_info::AccountState,
    require_meta_compat: bool,
    require_mergeable: bool,
    clock: Clock,
    source_status: crate::state::stake_history::StakeActivationStatus,
    destination_status: crate::state::stake_history::StakeActivationStatus,
) -> Result<(MergeKind, MergeKind), ProgramError> {
    if !stake_authority.is_signer {
        Err(ProgramError::MissingRequiredSignature)
    } else if source.key == destination.key {
        Err(ProgramError::InvalidInstructionData)
    } else if !source.is_writable || !destination.is_writable {
        Err(ProgramError::InvalidInstructionData)
    } else if lamports == 0 {
        Err(ProgramError::InvalidArgument)
    } else if starts_uninitialized(source.data) || starts_uninitialized(destination.data) {
        Err(ProgramError::InvalidAccountData)
    } else {
        match crate::helpers::utils::spec_get_stake_state(source) {
            Err(e) => Err(e),
            Ok(source_state) => match spec_move_kind(source_state, source.lamports, clock, source_status, require_mergeable) {
                Err(e) => Err(e),
                Ok(source_kind) => {
                    if spec_deactivating(source_state, clock.epoch) {
                        Err(crate::error::spec_to_program_error(crate::error::StakeError::MergeMismatch))
                    } else if source_kind.spec_meta().authorized.staker != stake_authority.key {
                        Err(ProgramError::MissingRequiredSignature)
                    } else {
                        match crate::helpers::utils::spec_get_stake_state(destination) {
                            Err(e) => Err(e),
                            Ok(destination_state) => {
                                if spec_deactivating(destination_state, clock.epoch) {
                                    Err(crate::error::spec_to_program_error(crate::error::StakeError::MergeMismatch))
                                } else {
                                    match spec_move_kind(destination_state, destination.lamports, clock, destination_status, require_mergeable) {
                                        Err(e) => Err(e),
                                        Ok(destination_kind) => {
                                            if require_meta_compat && !crate::state::merge_kind::spec_metas_can_merge(
                                                source_kind.spec_meta(),
                                                destination_kind.spec_meta(),
                                                clock,
                                            ) {
                                                Err(ProgramError::InvalidAccountData)
                                            } else {
                                                Ok((source_kind, destination_kind))
                                            }
                                        },
                                    }
                                }
                            },
                        }
                    }
                },
            },
        }
    }
}

/// Who may move what: checks that pass were signed by the stake authority,
/// the source's staker; the two accounts differ and are writable; the amount
/// is positive; both accounts load and neither is deactivating; and, where
/// asked, their metadata can merge.
pub proof fn lemma_shared_checks_admit_only_authorized(
    source: crate::state::account_info::AccountState,
    lamports: u64,
    destination: crate::state::account_info::AccountState,
    stake_authority: crate::state::account_info::AccountState,
    require_meta_compat: bool,
    require_mergeable: bool,
    clock: Clock,
    source_status: crate::state::stake_history::StakeActivationStatus,
    destination_status: crate::state::stake_history::StakeActivationStatus,
)
    requires
        spec_shared_checks(source, lamports, destination, stake_authority, require_meta_compat, require_mergeable, clock, source_status, destination_status) is Ok,
    ensures
        stake_authority.is_signer,
        source.key != destination.key,
        source.is_writable && destination.is_writable,
        lamports > 0,
        crate::helpers::utils::spec_get_stake_state(source) matches Ok(ss) && !spec_deactivating(ss, clock.epoch),
        crate::helpers::utils::spec_get_stake_state(destination) matches Ok(ds) && !spec_deactivating(ds, clock.epoch),
        spec_shared_checks(source, lamports, destination, stake_authority, require_meta_compat, require_mergeable, clock, source_status, destination_status) matches Ok((sk, dk)) && {
            &&& sk.spec_meta().authorized.staker == stake_authority.key
            &&& require_meta_compat ==> crate::state::merge_kind::spec_metas_can_merge(sk.spec_meta(), dk.spec_meta(), clock)
        },
{
}

/// Which refusal comes first: a missing authority signature before all else,
/// then the same account twice, then a read-only account, then a zero amount.
pub proof fn lemma_shared_checks_refusal_order(
    source: crate::state::account_info::AccountState,
    lamports: u64,
    destination: crate::state::account_info::AccountState,
    stake_authority: crate::state::account_info::AccountState,
    require_meta_compat: bool,
    require_mergeable: bool,
    clock: Clock,
    source_status: crate::state::stake_history::StakeActivationStatus,
    destination_status: crate::state::stake_history::StakeActivationStatus,
)
    ensures
        ({
            let r = spec_shared_checks(source, lamports, destination, stake_authority, require_meta_compat, require_mergeable, clock, source_status, destination_status);
            &&& !stake_authority.is_signer ==> r == Err::<(MergeKind, MergeKind), ProgramError>(ProgramError::MissingRequiredSignature)
            &&& stake_authority.is_signer && source.key == destination.key
                ==> r == Err::<(MergeKind, MergeKind), ProgramError>(ProgramError::InvalidInstructionData)
            &&& stake_authority.is_signer && source.key != destination.key && (!source.is_writable || !destination.is_writable)
                ==> r == Err::<(MergeKind, MergeKind), ProgramError>(ProgramError::InvalidInstructionData)
            &&& stake_authority.is_signer && source.key != destination.key && source.is_writable && destination.is_writable
                && lamports == 0 ==> r == Err::<(MergeKind, MergeKind), ProgramError>(ProgramError::InvalidArgument)
        }),
{
}

fn deactivating(state: &StakeStateV2, epoch: u64) -> (r: bool)
    ensures
        r == spec_deactivating(*state, epoch),
{
    match state {
        StakeStateV2::Stake(_, stake, _) => stake.delegation.deactivation_epoch != u64::MAX
            && epoch <= stake.delegation.deactivation_epoch,
        _ => false,
    }
}

fn move_kind(
    state: &StakeStateV2,
    lamports: u64,
    clock: &Clock,
    status: &crate::state::stake_history::StakeActivationStatus,
    require_mergeable: bool,
) -> (r: Result<MergeKind, ProgramError>)
    ensures
        r == spec_move_kind(*state, lamports, *clock, *status, require_mergeable),
{
    match MergeKind::get_if_mergeable(state, lamports, clock, status) {
        Ok(k) => Ok(k),
        Err(e) => if require_mergeable {
            Err(e)
        } else {
            classify_loose(state, lamports, clock)
        },
    }
}

/// The checks shared by `MoveStake` and `MoveLamports`, at `clock`, with the
/// activation statuses of the two accounts' delegations.
pub fn move_stake_or_lamports_shared_checks(
    source_stake_account_info: &crate::state::account_info::AccountInfo,
    lamports: u64,
    destination_stake_account_info: &crate::state::account_info::AccountInfo,
    stake_authority_info: &crate::state::account_info::AccountInfo,
    require_meta_compat: bool,
    require_mergeable: bool,
    clock: &Clock,
    source_status: &crate::state::stake_history::StakeActivationStatus,
    destination_status: &crate::state::stake_history::StakeActivationStatus,
) -> (r: Result<(MergeKind, MergeKind), ProgramError>)
    ensures
        r == spec_shared_checks(
            source_stake_account_info@,
            lamports,
            destination_stake_account_info@,
            stake_authority_info@,
            require_meta_compat,
            require_mergeable,
            *clock,
            *source_status,
            *destination_status,
        ),
{
    if !stake_authority_info.is_signer {
        return Err(ProgramError::MissingRequiredSignature);
    }
    if crate::pubkey::pubkey_eq(&source_stake_account_info.key, &destination_stake_account_info.key) {
        return Err(ProgramError::InvalidInstructionData);
    }
    if !source_stake_account_info.is_writable || !destination_stake_account_info.is_writable {
        return Err(ProgramError::InvalidInstructionData);
    }
    if lamports == 0 {
        return Err(ProgramError::InvalidArgument);
    }
    if source_stake_account_info.data.len() > 0 && source_stake_account_info.data[0] == 0 {
        return Err(ProgramError::InvalidAccountData);
    }
    if destination_stake_account_info.data.len() > 0 && destination_stake_account_info.data[0] == 0 {
        return Err(ProgramError::InvalidAccountData);
    }
    let source_state = crate::helpers::utils::get_stake_state(source_stake_account_info)?;
    let source_merge_kind = move_kind(&source_state, source_stake_account_info.lamports, clock, source_status, require_mergeable)?;
    if deactivating(&source_state, clock.epoch) {
        return Err(crate::error::to_program_error(crate::error::StakeError::MergeMismatch));
    }
    if !crate::pubkey::pubkey_eq(&source_merge_kind.meta().authorized.staker, &stake_authority_info.key) {
        return Err(ProgramError::MissingRequiredSignature);
    }
    let destination_state = crate::helpers::utils::get_stake_state(destination_stake_account_info)?;
    if deactivating(&destination_state, clock.epoch) {
        return Err(crate::error::to_program_error(crate::error::StakeError::MergeMismatch));
    }
    let destination_merge_kind = move_kind(
        &destination_state,
        destination_stake_account_info.lamports,
        clock,
        destination_status,
        require_mergeable,
    )?;
    if require_meta_compat {
        MergeKind::metas_can_merge(source_merge_kind.meta(), destination_merge_kind.meta(), clock)?;
    }
    Ok((source_merge_kind, destination_merge_kind))
}

} // verus!
