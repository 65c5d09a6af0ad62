//! Account-level entry points for reading and writing a stake state.
use vstd::prelude::*;

use crate::error::ProgramError;
use crate::state::account_info::{with_data, AccountInfo};
use crate::state::stake_state_v2::{spec_deserialize, spec_serialize, StakeStateV2};

verus! {

/// Decodes the stake state that the account's data holds.
pub fn deserialize_stake_state(account_info: &AccountInfo) -> (r: Result<StakeStateV2, ProgramError>)
    ensures
        r == spec_deserialize(account_info.data@),
{
    StakeStateV2::deserialize(account_info.data.as_slice())
}

/// Encodes `state` into the account's data, zero-filling the rest;
/// `AccountDataTooSmall`, with the account untouched, where the data is
/// shorter than a stake state.
pub fn serialize_stake_state(account_info: &mut AccountInfo, state: &StakeStateV2) -> (r: Result<(), ProgramError>)
    ensures
        match spec_serialize(*state, old(account_info)@.data.len()) {
            Ok(d) => r is Ok && final(account_info)@ == with_data(old(account_info)@, d),
            Err(e) => r == Err::<(), ProgramError>(e) && final(account_info)@ == old(account_info)@,
        },
{
    state.serialize(&mut account_info.data)
}

} // verus!
