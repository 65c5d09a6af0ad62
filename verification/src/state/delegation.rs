//! Delegations and delegated stakes.
use vstd::prelude::*;

use crate::error::StakeError;
use crate::helpers::constant::DEFAULT_WARMUP_COOLDOWN_RATE_BITS;
use crate::pubkey::{Pubkey, DEFAULT_PUBKEY};
use crate::state::stake_history::{StakeActivationStatus, StakeHistoryEntry};

verus! {

/// Stake delegated to a vote account.
#[derive(Clone, Copy, Debug, PartialEq, Eq)]
pub struct Delegation {
    /// The vote account the stake is delegated to.
    pub voter_pubkey: Pubkey,
    /// Delegated lamports.
    pub stake: u64,
    /// Epoch of activation; `u64::MAX` for bootstrap stake.
    pub activation_epoch: u64,
    /// Epoch of deactivation; `u64::MAX` while not deactivated.
    pub deactivation_epoch: u64,
    /// Bit pattern of the legacy per-delegation warmup/cooldown rate, kept
    /// for the account layout only.
    pub warmup_cooldown_rate: u64,
}

/// A delegation and the vote credits observed when it was made or redeemed.
#[derive(Clone, Copy, Debug, PartialEq, Eq)]
pub struct Stake {
    pub delegation: Delegation,
    pub credits_observed: u64,
}

impl Default for Delegation {
    fn default() -> (r: Self)
        ensures
            r.voter_pubkey == DEFAULT_PUBKEY,
            r.stake == 0,
            r.activation_epoch == 0,
            r.deactivation_epoch == u64::MAX,
            r.warmup_cooldown_rate == DEFAULT_WARMUP_COOLDOWN_RATE_BITS,
    {
        Delegation {
            voter_pubkey: DEFAULT_PUBKEY,
            stake: 0,
            activation_epoch: 0,
            deactivation_epoch: u64::MAX,
            warmup_cooldown_rate: DEFAULT_WARMUP_COOLDOWN_RATE_BITS,
        }
    }
}

impl Default for Stake {
    fn default() -> (r: Self)
        ensures
            r.delegation.voter_pubkey == DEFAULT_PUBKEY,
            r.delegation.stake == 0,
            r.delegation.activation_epoch == 0,
            r.delegation.deactivation_epoch == u64::MAX,
            r.delegation.warmup_cooldown_rate == DEFAULT_WARMUP_COOLDOWN_RATE_BITS,
            r.credits_observed == 0,
    {
        Stake { delegation: Delegation::default(), credits_observed: 0 }
    }
}

impl Delegation {
    /// A delegation of `stake` lamports to `voter_pubkey` from `activation_epoch`, not deactivated.
    pub fn new(voter_pubkey: &Pubkey, stake: u64, activation_epoch: u64) -> (r: Self)
        ensures
            r.voter_pubkey == *voter_pubkey,
            r.stake == stake,
            r.activation_epoch == activation_epoch,
            r.deactivation_epoch == u64::MAX,
            r.warmup_cooldown_rate == DEFAULT_WARMUP_COOLDOWN_RATE_BITS,
    {
        Delegation {
            voter_pubkey: *voter_pubkey,
            stake,
            activation_epoch,
            deactivation_epoch: u64::MAX,
            warmup_cooldown_rate: DEFAULT_WARMUP_COOLDOWN_RATE_BITS,
        }
    }

    /// Bytes that a `Delegation` takes in account data.
    pub fn size() -> (r: usize)
        ensures
            r == 64,
    {
        64
    }

    pub fn is_bootstrap(&self) -> (r: bool)
        ensures
            r == (self.activation_epoch == u64::MAX),
    {
        self.activation_epoch == u64::MAX
    }

    /// Not deactivated.
    pub fn is_active(&self) -> (r: bool)
        ensures
            r == (self.deactivation_epoch == u64::MAX),
    {
        self.deactivation_epoch == u64::MAX
    }

    /// Activated at or before `current_epoch`.
    pub fn is_fully_activated(&self, current_epoch: u64) -> (r: bool)
        ensures
            r == (current_epoch >= self.activation_epoch),
    {
        current_epoch >= self.activation_epoch
    }

    pub fn set_stake_amount(&mut self, amount: u64)
        ensures
            *final(self) == (Delegation { stake: amount, ..*old(self) }),
    {
        self.stake = amount;
    }
}

/// Effective and activating stake of a delegation at `target_epoch` where the
/// stake history is not needed: all of a bootstrap stake is effective; a
/// stake deactivated in its activation epoch, or not yet activated, has none;
/// in its activation epoch all of it is activating. `None` where the warmup
/// must be read off the cluster's stake history.
pub open spec fn spec_stake_and_activating_without_history(d: Delegation, target_epoch: u64) -> Option<(u64, u64)> {
    if d.activation_epoch == u64::MAX {
        Some((d.stake, 0u64))
    } else if d.activation_epoch == d.deactivation_epoch {
        Some((0u64, 0u64))
    } else if target_epoch == d.activation_epoch {
        Some((0u64, d.stake))
    } else if target_epoch < d.activation_epoch {
        Some((0u64, 0u64))
    } else {
        None
    }
}

/// The activation status at `target_epoch` of a delegation with `effective`
/// and `activating` stake before any cooldown, where no cooldown needs the
/// stake history: before the deactivation epoch nothing is deactivating; in
/// it all that is effective starts deactivating. `None` after it, where the
/// cooldown must be read off the cluster's stake history.
pub open spec fn spec_status_before_cooldown(d: Delegation, target_epoch: u64, effective: u64, activating: u64) -> Option<StakeActivationStatus> {
    if target_epoch < d.deactivation_epoch {
        Some(StakeHistoryEntry { effective, activating, deactivating: 0 })
    } else if target_epoch == d.deactivation_epoch {
        Some(StakeHistoryEntry { effective, activating: 0, deactivating: effective })
    } else {
        None
    }
}

impl Delegation {
    /// Effective and activating stake at `target_epoch`, where the stake
    /// history is not needed; `None` where it is.
    pub fn stake_and_activating_without_history(&self, target_epoch: u64) -> (r: Option<(u64, u64)>)
        ensures
            r == spec_stake_and_activating_without_history(*self, target_epoch),
            r matches Some((e, a)) ==> e + a <= self.stake,
    {
        if self.is_bootstrap() {
            Some((self.stake, 0))
        } else if self.activation_epoch == self.deactivation_epoch {
            Some((0, 0))
        } else if target_epoch == self.activation_epoch {
            Some((0, self.stake))
        } else if target_epoch < self.activation_epoch {
            Some((0, 0))
        } else {
            None
        }
    }

    /// The activation status at `target_epoch` given the stake effective and
    /// activating before any cooldown, where the stake history is not needed;
    /// `None` where it is.
    pub fn status_before_cooldown(&self, target_epoch: u64, effective: u64, activating: u64) -> (r: Option<StakeActivationStatus>)
        ensures
            r == spec_status_before_cooldown(*self, target_epoch, effective, activating),
    {
        if target_epoch < self.deactivation_epoch {
            Some(StakeHistoryEntry::with_effective_and_activating(effective, activating))
        } else if target_epoch == self.deactivation_epoch {
            Some(StakeHistoryEntry::with_deactivating(effective))
        } else {
            None
        }
    }
}

impl Stake {
    pub fn new(delegation: Delegation, credits_observed: u64) -> (r: Self)
        ensures
            r.delegation == delegation,
            r.credits_observed == credits_observed,
    {
        Stake { delegation, credits_observed }
    }

    /// Whether `current_epoch` lies in `[activation_epoch, deactivation_epoch)`.
    pub fn is_active(&self, current_epoch: u64) -> (r: bool)
        ensures
            r == (self.delegation.activation_epoch <= current_epoch && current_epoch < self.delegation.deactivation_epoch),
    {
        self.delegation.activation_epoch <= current_epoch && current_epoch < self.delegation.deactivation_epoch
    }

    pub fn set_credits_observed(&mut self, credits: u64)
        ensures
            *final(self) == (Stake { credits_observed: credits, ..*old(self) }),
    {
        self.credits_observed = credits;
    }

    /// Takes `remaining_stake_delta` off this stake and returns a copy of it
    /// that holds `split_stake_amount`.
    pub fn split(&mut self, remaining_stake_delta: u64, split_stake_amount: u64) -> (r: Result<Self, StakeError>)
        ensures
            remaining_stake_delta > old(self).delegation.stake ==> {
                &&& r == Err::<Stake, StakeError>(StakeError::InsufficientStake)
                &&& *final(self) == *old(self)
            },
            remaining_stake_delta <= old(self).delegation.stake ==> {
                &&& *final(self) == (Stake {
                    delegation: Delegation {
                        stake: (old(self).delegation.stake - remaining_stake_delta) as u64,
                        ..old(self).delegation
                    },
                    ..*old(self)
                })
                &&& r == Ok::<Stake, StakeError>(Stake {
                    delegation: Delegation { stake: split_stake_amount, ..final(self).delegation },
                    ..*final(self)
                })
            },
    {
        let current = self.delegation.stake;
        if remaining_stake_delta > current {
            return Err(StakeError::InsufficientStake);
        }
        self.delegation.stake = current - remaining_stake_delta;
        let new = Stake {
            delegation: Delegation { stake: split_stake_amount, ..self.delegation },
            ..*self
        };
        Ok(new)
    }

    /// Sets the deactivation epoch, unless the stake is already deactivated.
    pub fn deactivate(&mut self, epoch: u64) -> (r: Result<(), StakeError>)
        ensures
            old(self).delegation.deactivation_epoch != u64::MAX ==> {
                &&& r == Err::<(), StakeError>(StakeError::AlreadyDeactivated)
                &&& *final(self) == *old(self)
            },
            old(self).delegation.deactivation_epoch == u64::MAX ==> {
                &&& r is Ok
                &&& *final(self) == (Stake {
                    delegation: Delegation { deactivation_epoch: epoch, ..old(self).delegation },
                    ..*old(self)
                })
            },
    {
        if self.delegation.deactivation_epoch != u64::MAX {
            Err(StakeError::AlreadyDeactivated)
        } else {
            self.delegation.deactivation_epoch = epoch;
            Ok(())
        }
    }
}

} // verus!
