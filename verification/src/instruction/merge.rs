//! `Merge` entry point.
use vstd::prelude::*;

use crate::error::ProgramError;
use crate::instruction::merge_dedicated::{self, spec_process_merge};
use crate::state::account_info::{states, AccountInfo};
use crate::state::stake_history::StakeActivationStatus;

verus! {

/// Merges the source stake account into the destination.
pub fn process_merge(accounts: &mut Vec<AccountInfo>, dst_status: &StakeActivationStatus, src_status: &StakeActivationStatus) -> (r: Result<(), ProgramError>)
    ensures
        final(accounts)@.len() == old(accounts)@.len(),
        r is Err ==> states(final(accounts)@) == states(old(accounts)@),
        match spec_process_merge(states(old(accounts)@), *dst_status, *src_status) {
            Ok(s) => r is Ok && states(final(accounts)@) == s,
            Err(e) => r == Err::<(), ProgramError>(e),
        },
{
    merge_dedicated::process_merge(accounts, dst_status, src_status)
}

} // verus!
