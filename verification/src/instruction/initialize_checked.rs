//! `InitializeChecked`: initialize a stake account with signing authorities.
use vstd::prelude::*;

use crate::error::ProgramError;
use crate::instruction::initialize::{do_initialize, spec_do_initialize, spec_rent_account_check};
use crate::state::account_info::{states, AccountInfo, AccountState};
use crate::state::accounts::Authorized;
use crate::state::state::Lockup;
use crate::pubkey::pubkey_eq;
use crate::sysvars::RENT_ID;
use crate::pubkey::DEFAULT_PUBKEY;

verus! {

/// What `InitializeChecked` gives. Accounts: the stake account, the rent
/// sysvar, the staker, and the withdrawer, which must sign. The lockup is
/// the default one; `rent_exempt_reserve` is what the rent sysvar asks for a
/// stake account's 194 bytes.
pub open spec fn spec_process_initialize_checked(accs: Seq<AccountState>, rent_exempt_reserve: u64) -> Result<Seq<AccountState>, ProgramError> {
    if accs.len() < 4 {
        Err(ProgramError::NotEnoughAccountKeys)
    } else {
        match spec_rent_account_check(accs, 1) {
            Err(e) => Err(e),
            Ok(()) => {
                if !accs[3].is_signer {
                    Err(ProgramError::MissingRequiredSignature)
                } else {
                    let authorized = Authorized { staker: accs[2].key, withdrawer: accs[3].key };
                    let lockup = Lockup { unix_timestamp: 0, epoch: 0, custodian: DEFAULT_PUBKEY };
                    match spec_do_initialize(accs[0], authorized, lockup, rent_exempt_reserve) {
                        Ok(a) => Ok(accs.update(0, a)),
                        Err(e) => Err(e),
                    }
                }
            },
        }
    }
}

/// Initializes the stake account with the third account as staker and the
/// signing fourth account as withdrawer, `rent_exempt_reserve` being what
/// the rent sysvar asks for a stake account's 194 bytes.
pub fn process_initialize_checked(accounts: &mut Vec<AccountInfo>, rent_exempt_reserve: u64) -> (r: Result<(), ProgramError>)
    ensures
        final(accounts)@.len() == old(accounts)@.len(),
        r is Err ==> states(final(accounts)@) == states(old(accounts)@),
        match spec_process_initialize_checked(states(old(accounts)@), rent_exempt_reserve) {
            Ok(s) => r is Ok && states(final(accounts)@) == s,
            Err(e) => r == Err::<(), ProgramError>(e),
        },
{
    if accounts.len() < 4 {
        return Err(ProgramError::NotEnoughAccountKeys);
    }
    let ghost accs = states(accounts@);
    if !pubkey_eq(&accounts[1].key, &RENT_ID) {
        return Err(ProgramError::InvalidArgument);
    }
    if !accounts[3].is_signer {
        return Err(ProgramError::MissingRequiredSignature);
    }
    let authorized = Authorized { staker: accounts[2].key, withdrawer: accounts[3].key };
    let lockup: Lockup = Lockup::default();
    let r = do_initialize(&mut accounts[0], authorized, lockup, rent_exempt_reserve);
    proof {
        assert(states(accounts@) =~= match spec_do_initialize(accs[0], authorized, lockup, rent_exempt_reserve) {
            Ok(a) => accs.update(0, a),
            Err(_) => accs,
        });
    }
    r
}

} // verus!
