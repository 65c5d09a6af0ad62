//! `Initialize`: set the authorities and lockup of a fresh stake account.
use vstd::prelude::*;

use crate::error::ProgramError;
use crate::helpers::utils::{get_stake_state, set_stake_state, spec_get_stake_state, spec_set_stake_state};
use crate::pubkey::pubkey_eq;
use crate::state::account_info::{
    lemma_total_lamports_update, same_layout, states, total_lamports, AccountInfo, AccountState,
};
use crate::state::accounts::Authorized;
use crate::state::stake_state_v2::{spec_deserialize, StakeStateV2};
use crate::state::state::{Lockup, Meta};
use crate::sysvars::RENT_ID;

verus! {

/// What initializing a stake account gives, `rent_exempt_reserve` being what
/// the rent sysvar asks for a stake account's 194 bytes: its data must be
/// exactly 194 bytes and hold the uninitialized state, and its balance must
/// cover the reserve, which the metadata then records.
pub open spec fn spec_do_initialize(a: AccountState, authorized: Authorized, lockup: Lockup, rent_exempt_reserve: u64) -> Result<AccountState, ProgramError> {
    if a.data.len() != 194 {
        Err(ProgramError::InvalidAccountData)
    } else {
        match spec_get_stake_state(a) {
            Err(e) => Err(e),
            Ok(StakeStateV2::Uninitialized) => {
                if a.lamports >= rent_exempt_reserve {
                    spec_set_stake_state(a, StakeStateV2::Initialized(Meta { rent_exempt_reserve, authorized, lockup }))
                } else {
                    Err(ProgramError::InsufficientFunds)
                }
            },
            Ok(_) => Err(ProgramError::InvalidAccountData),
        }
    }
}

/// `Initialize` changes no balance and no account but the stake account.
pub proof fn lemma_initialize_keeps_balances(accs: Seq<AccountState>, authorized: Authorized, lockup: Lockup, rent_exempt_reserve: u64)
    requires
        spec_initialize(accs, authorized, lockup, rent_exempt_reserve) is Ok,
    ensures
        spec_initialize(accs, authorized, lockup, rent_exempt_reserve) matches Ok(t) && {
            &&& t.len() == accs.len()
            &&& total_lamports(t) == total_lamports(accs)
            &&& same_layout(accs, t)
            &&& forall|j: int| 1 <= j < accs.len() ==> #[trigger] t[j] == accs[j]
        },
{
    let a = spec_do_initialize(accs[0], authorized, lockup, rent_exempt_reserve)->Ok_0;
    lemma_total_lamports_update(accs, 0, a);
    crate::state::stake_state_v2::lemma_encode_lengths(
        StakeStateV2::Initialized(Meta { rent_exempt_reserve, authorized, lockup }),
    );
}

/// A successful `Initialize` found an uninitialized 194-byte stake account
/// holding at least the reserve, beside the rent sysvar, and leaves it
/// initialized with exactly the given authorities and lockup and that
/// reserve.
pub proof fn lemma_initialize_records_terms(accs: Seq<AccountState>, authorized: Authorized, lockup: Lockup, rent_exempt_reserve: u64)
    requires
        spec_initialize(accs, authorized, lockup, rent_exempt_reserve) is Ok,
    ensures
        spec_initialize(accs, authorized, lockup, rent_exempt_reserve) matches Ok(t) && {
            &&& accs[1].key == RENT_ID
            &&& accs[0].data.len() == 194
            &&& spec_get_stake_state(accs[0]) == Ok::<StakeStateV2, ProgramError>(StakeStateV2::Uninitialized)
            &&& accs[0].lamports >= rent_exempt_reserve
            &&& t[0].lamports == accs[0].lamports
            &&& spec_deserialize(t[0].data) == Ok::<StakeStateV2, ProgramError>(
                StakeStateV2::Initialized(Meta { rent_exempt_reserve, authorized, lockup }),
            )
        },
{
    let s = StakeStateV2::Initialized(Meta { rent_exempt_reserve, authorized, lockup });
    crate::state::stake_state_v2::lemma_serialize_deserialize_roundtrip(s, accs[0].data.len());
}

/// Initializes one stake account, `rent_exempt_reserve` being what the rent
/// sysvar asks for a stake account's 194 bytes.
pub fn do_initialize(stake_account_info: &mut AccountInfo, authorized: Authorized, lockup: Lockup, rent_exempt_reserve: u64) -> (r: Result<(), ProgramError>)
    ensures
        match spec_do_initialize(old(stake_account_info)@, authorized, lockup, rent_exempt_reserve) {
            Ok(a) => r is Ok && final(stake_account_info)@ == a,
            Err(e) => r == Err::<(), ProgramError>(e) && final(stake_account_info)@ == old(stake_account_info)@,
        },
{
    if stake_account_info.data.len() != StakeStateV2::size_of() {
        return Err(ProgramError::InvalidAccountData);
    }
    match get_stake_state(stake_account_info)? {
        StakeStateV2::Uninitialized => {
            if stake_account_info.lamports >= rent_exempt_reserve {
                let stake_state = StakeStateV2::Initialized(Meta { rent_exempt_reserve, authorized, lockup });
                set_stake_state(stake_account_info, &stake_state)
            } else {
                Err(ProgramError::InsufficientFunds)
            }
        },
        _ => Err(ProgramError::InvalidAccountData),
    }
}

/// What checking that account `i` is the rent sysvar gives.
pub open spec fn spec_rent_account_check(accs: Seq<AccountState>, i: int) -> Result<(), ProgramError> {
    if accs[i].key != RENT_ID {
        Err(ProgramError::InvalidArgument)
    } else {
        Ok(())
    }
}

/// What `Initialize` gives, `rent_exempt_reserve` being what the rent sysvar
/// passed as the second account asks for a stake account's 194 bytes.
/// Accounts: the stake account and the rent sysvar.
pub open spec fn spec_initialize(accs: Seq<AccountState>, authorized: Authorized, lockup: Lockup, rent_exempt_reserve: u64) -> Result<Seq<AccountState>, ProgramError> {
    if accs.len() < 2 {
        Err(ProgramError::NotEnoughAccountKeys)
    } else {
        match spec_rent_account_check(accs, 1) {
            Err(e) => Err(e),
            Ok(()) => match spec_do_initialize(accs[0], authorized, lockup, rent_exempt_reserve) {
                Ok(a) => Ok(accs.update(0, a)),
                Err(e) => Err(e),
            },
        }
    }
}

/// Initializes the stake account with the given authorities and lockup,
/// `rent_exempt_reserve` being what the rent sysvar passed as the second
/// account asks for a stake account's 194 bytes.
pub fn initialize(accounts: &mut Vec<AccountInfo>, authorized: Authorized, lockup: Lockup, rent_exempt_reserve: u64) -> (r: Result<(), ProgramError>)
    ensures
        final(accounts)@.len() == old(accounts)@.len(),
        r is Err ==> states(final(accounts)@) == states(old(accounts)@),
        match spec_initialize(states(old(accounts)@), authorized, lockup, rent_exempt_reserve) {
            Ok(s) => r is Ok && states(final(accounts)@) == s,
            Err(e) => r == Err::<(), ProgramError>(e),
        },
{
    if accounts.len() < 2 {
        return Err(ProgramError::NotEnoughAccountKeys);
    }
    let ghost accs = states(accounts@);
    if !pubkey_eq(&accounts[1].key, &RENT_ID) {
        return Err(ProgramError::InvalidArgument);
    }
    let r = do_initialize(&mut accounts[0], authorized, lockup, rent_exempt_reserve);
    proof {
        assert(states(accounts@) =~= match spec_do_initialize(accs[0], authorized, lockup, rent_exempt_reserve) {
            Ok(a) => accs.update(0, a),
            Err(_) => accs,
        });
    }
    r
}

} // verus!
