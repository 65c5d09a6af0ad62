//! Classifying stake accounts for merging, and merging them.
use vstd::prelude::*;

use crate::error::ProgramError;
use crate::helpers::merge::{
    is_rounded_up_weighted_average, lemma_merge_weights_credits_by_own_stake, merge_delegation_stake_and_credits_observed,
    spec_merge_delegation_stake_and_credits_observed,
};
use crate::pubkey::pubkey_eq;
use crate::state::accounts::authorized_eq;
use crate::state::delegation::{Delegation, Stake};
use crate::state::stake_flag::StakeFlags;
use crate::state::stake_history::StakeActivationStatus;
use crate::state::stake_state_v2::StakeStateV2;
use crate::state::state::{lockup_eq, spec_lockup_in_force, Meta};
use crate::sysvars::Clock;

verus! {

/// How a stake account takes part in a merge.
#[derive(Clone, Copy, Debug)]
pub enum MergeKind {
    /// Not delegated, or fully deactivated; holds the account's lamports.
    Inactive(Meta, u64, StakeFlags),
    /// In its activation epoch.
    ActivationEpoch(Meta, Stake, StakeFlags),
    /// Fully active.
    FullyActive(Meta, Stake),
}

impl MergeKind {
    pub open spec fn spec_meta(self) -> Meta {
        match self {
            MergeKind::Inactive(meta, _, _) => meta,
            MergeKind::ActivationEpoch(meta, _, _) => meta,
            MergeKind::FullyActive(meta, _) => meta,
        }
    }

    pub open spec fn spec_active_stake(self) -> Option<Stake> {
        match self {
            MergeKind::Inactive(_, _, _) => None,
            MergeKind::ActivationEpoch(_, stake, _) => Some(stake),
            MergeKind::FullyActive(_, stake) => Some(stake),
        }
    }

    /// The metadata of any kind.
    pub fn meta(&self) -> (r: &Meta)
        ensures
            *r == self.spec_meta(),
    {
        match self {
            MergeKind::Inactive(meta, _, _) => meta,
            MergeKind::ActivationEpoch(meta, _, _) => meta,
            MergeKind::FullyActive(meta, _) => meta,
        }
    }

    /// The delegated stake, for the active kinds.
    pub fn active_stake(&self) -> (r: Option<&Stake>)
        ensures
            match self.spec_active_stake() {
                Some(s) => r matches Some(x) && *x == s,
                None => r is None,
            },
    {
        match self {
            MergeKind::Inactive(_, _, _) => None,
            MergeKind::ActivationEpoch(_, stake, _) => Some(stake),
            MergeKind::FullyActive(_, stake) => Some(stake),
        }
    }
}

/// How a state classifies, given the activation status of its delegation at
/// the current epoch. An initialized account is inactive. A stake with
/// nothing effective, activating or deactivating is fully active if it
/// delegates lamports and is not deactivating, else inactive; one with
/// nothing effective but some activating or deactivating is fully active if
/// it delegates lamports, is not deactivating and was activated before the
/// current epoch, else in its activation epoch; one whose whole delegation is
/// effective, with nothing activating or deactivating, is fully active. Any
/// other stake, and any other state, is `InvalidAccountData`.
pub open spec fn spec_get_if_mergeable(
    stake_state: StakeStateV2,
    stake_lamports: u64,
    clock: Clock,
    status: StakeActivationStatus,
) -> Result<MergeKind, ProgramError> {
    match stake_state {
        StakeStateV2::Stake(meta, stake, flags) => {
            let delegated = stake.delegation.stake;
            let not_deactivating = stake.delegation.deactivation_epoch == u64::MAX;
            if status.effective == 0 && status.activating == 0 && status.deactivating == 0 {
                if delegated > 0 && not_deactivating {
                    Ok(MergeKind::FullyActive(meta, stake))
                } else {
                    Ok(MergeKind::Inactive(meta, stake_lamports, flags))
                }
            } else if status.effective == 0 {
                if delegated > 0 && not_deactivating && clock.epoch > stake.delegation.activation_epoch {
                    Ok(MergeKind::FullyActive(meta, stake))
                } else {
                    Ok(MergeKind::ActivationEpoch(meta, stake, flags))
                }
            } else if status.activating == 0 && status.deactivating == 0 && status.effective == delegated {
                Ok(MergeKind::FullyActive(meta, stake))
            } else {
                Err(ProgramError::InvalidAccountData)
            }
        },
        StakeStateV2::Initialized(meta) => Ok(MergeKind::Inactive(meta, stake_lamports, StakeFlags { bits: 0 })),
        _ => Err(ProgramError::InvalidAccountData),
    }
}

/// Whether two metadatas may merge: same authorities, and either the same
/// lockup or neither lockup in force.
pub open spec fn spec_metas_can_merge(dest: Meta, source: Meta, clock: Clock) -> bool {
    &&& dest.authorized == source.authorized
    &&& (dest.lockup == source.lockup || (!spec_lockup_in_force(dest.lockup, clock, None)
        && !spec_lockup_in_force(source.lockup, clock, None)))
}

/// Whether two active delegations may merge: same vote account, neither deactivating.
pub open spec fn spec_active_delegations_can_merge(dest: Delegation, source: Delegation) -> bool {
    &&& dest.voter_pubkey == source.voter_pubkey
    &&& dest.deactivation_epoch == u64::MAX
    &&& source.deactivation_epoch == u64::MAX
}

/// What merging `source` into `dest` gives. Two active kinds need mergeable
/// delegations. An inactive destination takes an inactive or activating
/// source without change (`None`). An activating destination absorbs all of
/// an inactive source's lamports into its stake, or an activating source's
/// stake and reserve (reweighting credits); a fully active destination
/// absorbs a fully active source's stake (reweighting credits). Any other
/// pair is `InvalidAccountData`.
pub open spec fn spec_merge(dest: MergeKind, source: MergeKind) -> Result<Option<StakeStateV2>, ProgramError> {
    if dest.spec_active_stake() is Some && source.spec_active_stake() is Some
        && !spec_active_delegations_can_merge(
            dest.spec_active_stake().unwrap().delegation,
            source.spec_active_stake().unwrap().delegation,
        ) {
        Err(ProgramError::InvalidAccountData)
    } else {
        match (dest, source) {
            (MergeKind::Inactive(_, _, _), MergeKind::Inactive(_, _, _)) => Ok(None),
            (MergeKind::Inactive(_, _, _), MergeKind::ActivationEpoch(_, _, _)) => Ok(None),
            (MergeKind::ActivationEpoch(meta, stake, dst_flags), MergeKind::Inactive(_, src_lamports, src_flags)) => {
                if stake.delegation.stake + src_lamports > u64::MAX {
                    Err(ProgramError::InsufficientFunds)
                } else {
                    let grown = Stake {
                        delegation: Delegation { stake: (stake.delegation.stake + src_lamports) as u64, ..stake.delegation },
                        ..stake
                    };
                    Ok(Some(StakeStateV2::Stake(meta, grown, StakeFlags { bits: dst_flags.bits | src_flags.bits })))
                }
            },
            (MergeKind::ActivationEpoch(meta, stake, dst_flags), MergeKind::ActivationEpoch(src_meta, src_stake, src_flags)) => {
                if src_meta.rent_exempt_reserve + src_stake.delegation.stake > u64::MAX {
                    Err(ProgramError::InsufficientFunds)
                } else {
                    match spec_merge_delegation_stake_and_credits_observed(
                        stake,
                        (src_meta.rent_exempt_reserve + src_stake.delegation.stake) as u64,
                        src_stake.credits_observed,
                    ) {
                        Ok(merged) => Ok(Some(StakeStateV2::Stake(meta, merged, StakeFlags { bits: dst_flags.bits | src_flags.bits }))),
                        Err(e) => Err(e),
                    }
                }
            },
            (MergeKind::FullyActive(meta, stake), MergeKind::FullyActive(_, src_stake)) => {
                match spec_merge_delegation_stake_and_credits_observed(stake, src_stake.delegation.stake, src_stake.credits_observed) {
                    Ok(merged) => Ok(Some(StakeStateV2::Stake(meta, merged, StakeFlags { bits: 0 }))),
                    Err(e) => Err(e),
                }
            },
            _ => Err(ProgramError::InvalidAccountData),
        }
    }
}

/// What a merge that writes the destination leaves there: the destination's
/// metadata and delegation (vote account, epochs) with the stakes added up.
/// Two fully active stakes add their delegated stakes; an activating
/// destination adds all of an inactive source's lamports, keeping its
/// credits, or an activating source's stake and reserve. Where stake is
/// absorbed, the credits observed become the average of the two sides'
/// credits, each weighted by its own side's stake, rounded up.
pub proof fn lemma_merge_adds_stakes(dest: MergeKind, source: MergeKind)
    requires
        spec_merge(dest, source) matches Ok(Some(_)),
    ensures
        spec_merge(dest, source) matches Ok(Some(StakeStateV2::Stake(m, s, _))) && match (dest, source) {
            (MergeKind::FullyActive(dm, ds), MergeKind::FullyActive(_, ss)) => {
                &&& m == dm
                &&& s.delegation == (Delegation { stake: (ds.delegation.stake + ss.delegation.stake) as u64, ..ds.delegation })
                &&& s.delegation.stake == ds.delegation.stake + ss.delegation.stake
                &&& is_rounded_up_weighted_average(
                    s.credits_observed as int,
                    ds.credits_observed as int,
                    ds.delegation.stake as int,
                    ss.credits_observed as int,
                    ss.delegation.stake as int,
                )
            },
            (MergeKind::ActivationEpoch(dm, ds, _), MergeKind::Inactive(_, lamports, _)) => {
                &&& m == dm
                &&& s.delegation.stake == ds.delegation.stake + lamports
                &&& s == (Stake { delegation: Delegation { stake: s.delegation.stake, ..ds.delegation }, ..ds })
            },
            (MergeKind::ActivationEpoch(dm, ds, _), MergeKind::ActivationEpoch(sm, ss, _)) => {
                let absorbed = sm.rent_exempt_reserve + ss.delegation.stake;
                &&& m == dm
                &&& s.delegation == (Delegation { stake: (ds.delegation.stake + absorbed) as u64, ..ds.delegation })
                &&& s.delegation.stake == ds.delegation.stake + absorbed
                &&& is_rounded_up_weighted_average(
                    s.credits_observed as int,
                    ds.credits_observed as int,
                    ds.delegation.stake as int,
                    ss.credits_observed as int,
                    absorbed,
                )
            },
            _ => false,
        },
{
    match (dest, source) {
        (MergeKind::FullyActive(dm, ds), MergeKind::FullyActive(_, ss)) => {
            lemma_merge_weights_credits_by_own_stake(ds, ss.delegation.stake, ss.credits_observed);
        },
        (MergeKind::ActivationEpoch(dm, ds, _), MergeKind::ActivationEpoch(sm, ss, _)) => {
            lemma_merge_weights_credits_by_own_stake(ds, (sm.rent_exempt_reserve + ss.delegation.stake) as u64, ss.credits_observed);
        },
        _ => {},
    }
}

impl MergeKind {
    /// Classifies a stake state for merging; `status` is its delegation's
    /// activation status at `clock.epoch` (not read for other states).
    pub fn get_if_mergeable(
        stake_state: &StakeStateV2,
        stake_lamports: u64,
        clock: &Clock,
        status: &StakeActivationStatus,
    ) -> (r: Result<Self, ProgramError>)
        ensures
            r == spec_get_if_mergeable(*stake_state, stake_lamports, *clock, *status),
    {
        match stake_state {
            StakeStateV2::Stake(meta, stake, flags) => {
                let effective = status.effective;
                let activating = status.activating;
                let deactivating = status.deactivating;
                let delegated = stake.delegation.stake;
                if effective == 0 && activating == 0 && deactivating == 0 {
                    if delegated > 0 && stake.delegation.deactivation_epoch == u64::MAX {
                        Ok(MergeKind::FullyActive(*meta, *stake))
                    } else {
                        Ok(MergeKind::Inactive(*meta, stake_lamports, *flags))
                    }
                } else if effective == 0 {
                    let act_epoch = stake.delegation.activation_epoch;
                    let deact_epoch = stake.delegation.deactivation_epoch;
                    if delegated > 0 && deact_epoch == u64::MAX && clock.epoch > act_epoch {
                        Ok(MergeKind::FullyActive(*meta, *stake))
                    } else {
                        Ok(MergeKind::ActivationEpoch(*meta, *stake, *flags))
                    }
                } else if activating == 0 && deactivating == 0 && effective == delegated {
                    Ok(MergeKind::FullyActive(*meta, *stake))
                } else {
                    Err(ProgramError::InvalidAccountData)
                }
            },
            StakeStateV2::Initialized(meta) => Ok(MergeKind::Inactive(*meta, stake_lamports, StakeFlags::empty())),
            _ => Err(ProgramError::InvalidAccountData),
        }
    }

    /// Checks that two metadatas may merge; `InvalidAccountData` otherwise.
    pub fn metas_can_merge(dest: &Meta, source: &Meta, clock: &Clock) -> (r: Result<(), ProgramError>)
        ensures
            r is Ok <==> spec_metas_can_merge(*dest, *source, *clock),
            r matches Err(e) ==> e == ProgramError::InvalidAccountData,
    {
        if !authorized_eq(&dest.authorized, &source.authorized) {
            return Err(ProgramError::InvalidAccountData);
        }
        let can_merge_lockups = lockup_eq(&dest.lockup, &source.lockup) || (!dest.lockup.is_in_force(clock, None)
            && !source.lockup.is_in_force(clock, None));
        if can_merge_lockups {
            Ok(())
        } else {
            Err(ProgramError::InvalidAccountData)
        }
    }

    /// Checks that two active delegations may merge; `InvalidAccountData` otherwise.
    pub fn active_delegations_can_merge(dest: &Delegation, source: &Delegation) -> (r: Result<(), ProgramError>)
        ensures
            r is Ok <==> spec_active_delegations_can_merge(*dest, *source),
            r matches Err(e) ==> e == ProgramError::InvalidAccountData,
    {
        if !pubkey_eq(&dest.voter_pubkey, &source.voter_pubkey) {
            return Err(ProgramError::InvalidAccountData);
        }
        if dest.deactivation_epoch == u64::MAX && source.deactivation_epoch == u64::MAX {
            Ok(())
        } else {
            Err(ProgramError::InvalidAccountData)
        }
    }

    /// Merges `source` into `self`; `None` where the destination's state
    /// stays as it is.
    pub fn merge(self, source: Self, _clock: &Clock) -> (r: Result<Option<StakeStateV2>, ProgramError>)
        ensures
            r == spec_merge(self, source),
    {
        if let (Some(dst), Some(src)) = (self.active_stake(), source.active_stake()) {
            Self::active_delegations_can_merge(&dst.delegation, &src.delegation)?;
        }
        match (self, source) {
            (MergeKind::Inactive(_, _, _), MergeKind::Inactive(_, _, _)) => Ok(None),
            (MergeKind::Inactive(_, _, _), MergeKind::ActivationEpoch(_, _, _)) => Ok(None),
            (MergeKind::ActivationEpoch(meta, stake, dst_flags), MergeKind::Inactive(_, src_lamports, src_flags)) => {
                let mut stake = stake;
                let new_stake = crate::helpers::checked_add(stake.delegation.stake, src_lamports)?;
                stake.delegation.stake = new_stake;
                let merged_flags = dst_flags.union(src_flags);
                Ok(Some(StakeStateV2::Stake(meta, stake, merged_flags)))
            },
            (MergeKind::ActivationEpoch(meta, stake, dst_flags), MergeKind::ActivationEpoch(src_meta, src_stake, src_flags)) => {
                let mut stake = stake;
                let src_stake_lamports = crate::helpers::checked_add(src_meta.rent_exempt_reserve, src_stake.delegation.stake)?;
                merge_delegation_stake_and_credits_observed(&mut stake, src_stake_lamports, src_stake.credits_observed)?;
                let merged_flags = dst_flags.union(src_flags);
                Ok(Some(StakeStateV2::Stake(meta, stake, merged_flags)))
            },
            (MergeKind::FullyActive(meta, stake), MergeKind::FullyActive(_, src_stake)) => {
                let mut stake = stake;
                merge_delegation_stake_and_credits_observed(&mut stake, src_stake.delegation.stake, src_stake.credits_observed)?;
                Ok(Some(StakeStateV2::Stake(meta, stake, StakeFlags::empty())))
            },
            _ => Err(ProgramError::InvalidAccountData),
        }
    }
}

} // verus!
