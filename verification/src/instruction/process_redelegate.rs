//! Delegation without the redelegation guard.
use vstd::prelude::*;

use crate::error::ProgramError;
use crate::instruction::process_delegate::{delegate_stake, spec_delegate};
use crate::state::account_info::{states, AccountInfo};
use crate::state::stake_history::StakeActivationStatus;

verus! {

/// Delegates or redelegates the stake account, without first refusing a
/// deactivating stake that moves to another vote account; `status` is the
/// activation status of its delegation at the clock's epoch.
pub fn redelegate(accounts: &mut Vec<AccountInfo>, status: &StakeActivationStatus) -> (r: Result<(), ProgramError>)
    ensures
        final(accounts)@.len() == old(accounts)@.len(),
        r is Err ==> states(final(accounts)@) == states(old(accounts)@),
        match spec_delegate(states(old(accounts)@), false, *status) {
            Ok(s) => r is Ok && states(final(accounts)@) == s,
            Err(e) => r == Err::<(), ProgramError>(e),
        },
{
    delegate_stake(accounts, false, status)
}

} // verus!
