//! The clock sysvar as plain values, and the sysvar addresses.
use vstd::prelude::*;

use crate::error::ProgramError;
use crate::pubkey::{pubkey_eq, Pubkey};
use crate::state::account_info::{AccountInfo, AccountState};

verus! {

/// Address of the clock sysvar account.
pub const CLOCK_ID: Pubkey = [
    6, 167, 213, 23, 24, 199, 116, 201, 40, 86, 99, 152, 105, 29, 94, 182, 139, 94, 184, 163, 155,
    75, 109, 92, 115, 85, 91, 33, 0, 0, 0, 0,
];

/// Address of the rent sysvar account.
pub const RENT_ID: Pubkey = [
    6, 167, 213, 23, 25, 44, 92, 81, 33, 140, 201, 76, 61, 74, 241, 127, 88, 218, 238, 8, 155, 161,
    253, 68, 227, 219, 217, 138, 0, 0, 0, 0,
];

/// The cluster clock.
#[derive(Clone, Copy, Debug)]
pub struct Clock {
    pub slot: u64,
    pub epoch_start_timestamp: i64,
    pub epoch: u64,
    pub leader_schedule_epoch: u64,
    pub unix_timestamp: i64,
}

/// The clock that the 40 bytes of a clock sysvar's data hold: five 8-byte
/// little-endian fields in declaration order.
pub open spec fn spec_clock_of(data: Seq<u8>) -> Clock {
    Clock {
        slot: crate::bytes::le_u64_at(data, 0),
        epoch_start_timestamp: crate::bytes::le_u64_at(data, 8) as i64,
        epoch: crate::bytes::le_u64_at(data, 16),
        leader_schedule_epoch: crate::bytes::le_u64_at(data, 24),
        unix_timestamp: crate::bytes::le_u64_at(data, 32) as i64,
    }
}

/// Reads the clock from the sysvar's data: `InvalidArgument` for fewer than
/// 40 bytes, else the five little-endian words at offsets 0, 8, 16, 24, 32.
pub fn clock_from_bytes(bytes: &[u8]) -> (r: Result<Clock, ProgramError>)
    ensures
        r is Ok <==> bytes@.len() >= 40,
        r matches Ok(c) ==> c == spec_clock_of(bytes@),
        r matches Err(e) ==> e == ProgramError::InvalidArgument,
{
    if bytes.len() < 40 {
        return Err(ProgramError::InvalidArgument);
    }
    let slot = crate::bytes::read_u64_le(bytes, 0);
    let start = crate::bytes::read_u64_le(bytes, 8);
    let epoch = crate::bytes::read_u64_le(bytes, 16);
    let leader = crate::bytes::read_u64_le(bytes, 24);
    let unix = crate::bytes::read_u64_le(bytes, 32);
    Ok(Clock {
        slot,
        epoch_start_timestamp: start as i64,
        epoch,
        leader_schedule_epoch: leader,
        unix_timestamp: unix as i64,
    })
}

/// What reading the clock from an account gives: `InvalidArgument` unless it
/// is the clock sysvar account with at least 40 bytes of data.
pub open spec fn spec_clock_from_account(a: AccountState) -> Result<Clock, ProgramError> {
    if a.key != CLOCK_ID || a.data.len() < 40 {
        Err(ProgramError::InvalidArgument)
    } else {
        Ok(spec_clock_of(a.data))
    }
}

impl Clock {
    /// Reads the clock from the clock sysvar account.
    pub fn from_account_info(ai: &AccountInfo) -> (r: Result<Clock, ProgramError>)
        ensures
            r == spec_clock_from_account(ai@),
    {
        if !pubkey_eq(&ai.key, &CLOCK_ID) {
            return Err(ProgramError::InvalidArgument);
        }
        clock_from_bytes(ai.data.as_slice())
    }
}

} // verus!
