//! Lockups and the metadata of an initialized stake account.
use vstd::prelude::*;

use crate::bytes::{le_u64_at, pubkey_of, read_pubkey, read_u64_le};
use crate::error::ProgramError;
use crate::pubkey::{pubkey_eq, Pubkey, DEFAULT_PUBKEY};
use crate::state::account_info::AccountInfo;
use crate::state::stake_state_v2::{decode_meta, read_meta};
use crate::state::accounts::Authorized;
use crate::sysvars::Clock;

verus! {

/// A lockup: until both its time and its epoch have passed, only the
/// custodian's signature allows withdrawals and lockup changes.
#[derive(Clone, Copy, Debug, PartialEq, Eq)]
pub struct Lockup {
    /// Unix time until which the stake is locked.
    pub unix_timestamp: i64,
    /// Epoch until which the stake is locked.
    pub epoch: u64,
    /// Signer that can lift the lockup.
    pub custodian: Pubkey,
}

/// The metadata that every initialized stake account holds.
#[derive(Clone, Copy, Debug, PartialEq, Eq)]
pub struct Meta {
    /// Lamports that stay in the account to keep it rent exempt.
    pub rent_exempt_reserve: u64,
    pub authorized: Authorized,
    pub lockup: Lockup,
}

impl Default for Lockup {
    fn default() -> (r: Self)
        ensures
            r.unix_timestamp == 0,
            r.epoch == 0,
            r.custodian == DEFAULT_PUBKEY,
    {
        Lockup { unix_timestamp: 0, epoch: 0, custodian: DEFAULT_PUBKEY }
    }
}

impl Default for Meta {
    fn default() -> (r: Self)
        ensures
            r.rent_exempt_reserve == 0,
            r.authorized.staker == DEFAULT_PUBKEY,
            r.authorized.withdrawer == DEFAULT_PUBKEY,
            r.lockup.unix_timestamp == 0,
            r.lockup.epoch == 0,
            r.lockup.custodian == DEFAULT_PUBKEY,
    {
        Meta {
            rent_exempt_reserve: 0,
            authorized: Authorized { staker: DEFAULT_PUBKEY, withdrawer: DEFAULT_PUBKEY },
            lockup: Lockup { unix_timestamp: 0, epoch: 0, custodian: DEFAULT_PUBKEY },
        }
    }
}

impl Meta {
    pub fn new(rent_exempt_reserve: u64, authorized: Authorized, lockup: Lockup) -> (r: Self)
        ensures
            r.rent_exempt_reserve == rent_exempt_reserve,
            r.authorized == authorized,
            r.lockup == lockup,
    {
        Meta { rent_exempt_reserve, authorized, lockup }
    }

    /// Bytes that a `Meta` takes in account data.
    pub fn size() -> (r: usize)
        ensures
            r == 120,
    {
        120
    }

    /// The metadata that the first 120 bytes of an account's data hold;
    /// `InvalidAccountData` for shorter data.
    pub fn get_account_info(accounts: &AccountInfo) -> (r: Result<Self, ProgramError>)
        ensures
            r is Ok <==> accounts.data@.len() >= 120,
            r matches Ok(m) ==> m == decode_meta(accounts.data@, 0),
            r matches Err(e) ==> e == ProgramError::InvalidAccountData,
    {
        if accounts.data.len() < Self::size() {
            return Err(ProgramError::InvalidAccountData);
        }
        Ok(read_meta(accounts.data.as_slice(), 0))
    }
}

/// Whether a lockup is in force at `clock`, unless `custodian_signer` is its
/// (non-zero) custodian: a non-zero time not yet reached, or a non-zero epoch
/// not yet reached.
pub open spec fn spec_lockup_in_force(lockup: Lockup, clock: Clock, custodian_signer: Option<Pubkey>) -> bool {
    let bypassed = lockup.custodian != DEFAULT_PUBKEY && custodian_signer == Some(lockup.custodian);
    let time_in_force = lockup.unix_timestamp != 0 && clock.unix_timestamp < lockup.unix_timestamp;
    let epoch_in_force = lockup.epoch != 0 && clock.epoch < lockup.epoch;
    !bypassed && (time_in_force || epoch_in_force)
}

impl Lockup {
    /// Bytes that a `Lockup` takes in account data.
    pub fn size() -> (r: usize)
        ensures
            r == 48,
    {
        48
    }

    /// The lockup that the first 48 bytes of an account's data hold (time,
    /// epoch, custodian); `InvalidAccountData` for shorter data.
    pub fn get_account_info(accounts: &AccountInfo) -> (r: Result<Self, ProgramError>)
        ensures
            r is Ok <==> accounts.data@.len() >= 48,
            r matches Ok(l) ==> l == (Lockup {
                unix_timestamp: le_u64_at(accounts.data@, 0) as i64,
                epoch: le_u64_at(accounts.data@, 8),
                custodian: pubkey_of(accounts.data@.subrange(16, 48)),
            }),
            r matches Err(e) ==> e == ProgramError::InvalidAccountData,
    {
        if accounts.data.len() < Self::size() {
            return Err(ProgramError::InvalidAccountData);
        }
        let data = accounts.data.as_slice();
        Ok(Lockup {
            unix_timestamp: read_u64_le(data, 0) as i64,
            epoch: read_u64_le(data, 8),
            custodian: read_pubkey(data, 16),
        })
    }

    pub fn new(unix_timestamp: i64, epoch: u64, custodian: Pubkey) -> (r: Self)
        ensures
            r.unix_timestamp == unix_timestamp,
            r.epoch == epoch,
            r.custodian == custodian,
    {
        Lockup { unix_timestamp, epoch, custodian }
    }

    /// Whether the given time or epoch is still before the lockup's.
    pub fn is_active(&self, current_timestamp: i64, current_epoch: u64) -> (r: bool)
        ensures
            r == (current_timestamp < self.unix_timestamp || current_epoch < self.epoch),
    {
        current_timestamp < self.unix_timestamp || current_epoch < self.epoch
    }

    /// Whether the lockup is in force at `clock`, with `custodian_signer` the
    /// custodian that signed, if any.
    pub fn is_in_force(&self, clock: &Clock, custodian_signer: Option<&Pubkey>) -> (r: bool)
        ensures
            r == spec_lockup_in_force(*self, *clock, match custodian_signer {
                Some(k) => Some(*k),
                None => None,
            }),
    {
        let has_custodian = !pubkey_eq(&self.custodian, &DEFAULT_PUBKEY);
        if has_custodian {
            if let Some(sig) = custodian_signer {
                if pubkey_eq(sig, &self.custodian) {
                    return false;
                }
            }
        }
        let time_in_force = self.unix_timestamp != 0 && clock.unix_timestamp < self.unix_timestamp;
        let epoch_in_force = self.epoch != 0 && clock.epoch < self.epoch;
        time_in_force || epoch_in_force
    }
}

/// Field-wise equality of two lockups.
pub fn lockup_eq(a: &Lockup, b: &Lockup) -> (r: bool)
    ensures
        r == (*a == *b),
{
    a.unix_timestamp == b.unix_timestamp && a.epoch == b.epoch && pubkey_eq(&a.custodian, &b.custodian)
}

} // verus!
