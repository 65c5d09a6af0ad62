//! `AuthorizeWithSeed`: change an authority, signed through a base account.
use vstd::prelude::*;

use crate::error::ProgramError;
use crate::instruction::{authorize_stake_account, account_at, collect_signer_keys, spec_authorize_stake, spec_signers};
use crate::pubkey::{pubkey_eq, Pubkey};
use crate::state::account_info::{states, AccountInfo, AccountState};
use crate::state::accounts::{AuthorizeWithSeedData, StakeAuthorize};
use crate::sysvars::{spec_clock_from_account, Clock, CLOCK_ID};

verus! {

/// What `AuthorizeWithSeed` gives. Accounts: the stake account (owned by
/// the program, writable), the base account, the clock sysvar, and
/// optionally the lockup custodian. The seed and its owner play no part:
/// the signers of the instruction must include the current authority.
pub open spec fn spec_process_authorized_with_seeds(
    accs: Seq<AccountState>,
    new_authorized: Pubkey,
    stake_authorize: StakeAuthorize,
) -> Result<Seq<AccountState>, ProgramError> {
    if accs.len() < 3 {
        Err(ProgramError::NotEnoughAccountKeys)
    } else if accs[0].owner != crate::ID || !accs[0].is_writable {
        Err(ProgramError::IncorrectProgramId)
    } else if accs[2].key != CLOCK_ID {
        Err(ProgramError::InvalidArgument)
    } else {
        match spec_clock_from_account(accs[2]) {
            Err(e) => Err(e),
            Ok(clock) => match spec_signers(accs) {
                Err(e) => Err(e),
                Ok(signers) => spec_authorize_stake(accs, new_authorized, stake_authorize, signers, account_at(accs, 3), clock),
            },
        }
    }
}

/// Changes the staker or withdrawer to `args.new_authorized`.
pub fn process_authorized_with_seeds(accounts: &mut Vec<AccountInfo>, args: AuthorizeWithSeedData) -> (r: Result<(), ProgramError>)
    ensures
        final(accounts)@.len() == old(accounts)@.len(),
        r is Err ==> states(final(accounts)@) == states(old(accounts)@),
        match spec_process_authorized_with_seeds(states(old(accounts)@), args.new_authorized, args.stake_authorize) {
            Ok(s) => r is Ok && states(final(accounts)@) == s,
            Err(e) => r == Err::<(), ProgramError>(e),
        },
{
    if accounts.len() < 3 {
        return Err(ProgramError::NotEnoughAccountKeys);
    }
    if !pubkey_eq(&accounts[0].owner, &crate::ID) || !accounts[0].is_writable {
        return Err(ProgramError::IncorrectProgramId);
    }
    if !pubkey_eq(&accounts[2].key, &CLOCK_ID) {
        return Err(ProgramError::InvalidArgument);
    }
    let clock = Clock::from_account_info(&accounts[2])?;
    let signers = collect_signer_keys(accounts)?;
    authorize_stake_account(accounts, args.new_authorized, args.stake_authorize, signers.as_slice(), 3, &clock)
}

} // verus!
