//! `AuthorizeChecked`: change the staker or withdrawer to a signing account.
use vstd::prelude::*;

use crate::error::ProgramError;
use crate::instruction::{authorize_stake_account, account_at, collect_signer_keys, spec_authorize_stake, spec_signers};
use crate::pubkey::pubkey_eq;
use crate::helpers::utils::spec_get_stake_state;
use crate::state::account_info::{signed_by, states, AccountInfo, AccountState};
use crate::state::stake_state_v2::StakeStateV2;
use crate::state::accounts::StakeAuthorize;
use crate::sysvars::{spec_clock_from_account, Clock, CLOCK_ID};

verus! {

/// What `AuthorizeChecked` gives. Accounts: the stake account (owned by the
/// program, writable), the clock sysvar, the old authority, the new
/// authority (which must sign), and optionally the lockup custodian.
pub open spec fn spec_process_authorize_checked(accs: Seq<AccountState>, authority_type: StakeAuthorize) -> Result<Seq<AccountState>, ProgramError> {
    if accs.len() < 4 {
        Err(ProgramError::NotEnoughAccountKeys)
    } else if accs[0].owner != crate::ID || !accs[0].is_writable {
        Err(ProgramError::IncorrectProgramId)
    } else if accs[1].key != CLOCK_ID {
        Err(ProgramError::InvalidArgument)
    } else if !accs[3].is_signer {
        Err(ProgramError::MissingRequiredSignature)
    } else {
        match spec_clock_from_account(accs[1]) {
            Err(e) => Err(e),
            Ok(clock) => match spec_signers(accs) {
                Err(e) => Err(e),
                Ok(signers) => spec_authorize_stake(accs, accs[3].key, authority_type, signers, account_at(accs, 4), clock),
            },
        }
    }
}

/// Who may `AuthorizeChecked`: the new authority (the fourth account)
/// signed; a new staker also needs the current staker's or withdrawer's
/// signature, a new withdrawer the current withdrawer's, and while the
/// lockup blocks that also the custodian signing as the fifth account.
pub proof fn lemma_authorize_checked_needs_authority(accs: Seq<AccountState>, authority_type: StakeAuthorize)
    requires
        spec_process_authorize_checked(accs, authority_type) is Ok,
    ensures
        accs[3].is_signer,
        spec_clock_from_account(accs[1]) matches Ok(clock) && spec_get_stake_state(accs[0]) matches Ok(state) && (state is Initialized
            || state is Stake) && {
            let m = match state {
                StakeStateV2::Initialized(m) => m,
                StakeStateV2::Stake(m, _, _) => m,
                _ => arbitrary(),
            };
            &&& authority_type == StakeAuthorize::Staker ==> signed_by(accs, m.authorized.staker) || signed_by(accs, m.authorized.withdrawer)
            &&& authority_type == StakeAuthorize::Withdrawer ==> signed_by(accs, m.authorized.withdrawer)
            &&& authority_type == StakeAuthorize::Withdrawer && (m.lockup.epoch > clock.epoch || m.lockup.unix_timestamp > clock.unix_timestamp)
                ==> (accs.len() > 4 && accs[4].is_signer && accs[4].key == m.lockup.custodian)
        },
{
    let clock = spec_clock_from_account(accs[1])->Ok_0;
    crate::instruction::lemma_authorize_stake_needs_authority(accs, accs[3].key, authority_type, account_at(accs, 4), clock);
}

/// Changes the staker or withdrawer of the stake account to the fourth
/// account, which must sign.
pub fn process_authorize_checked(accounts: &mut Vec<AccountInfo>, authority_type: StakeAuthorize) -> (r: Result<(), ProgramError>)
    ensures
        final(accounts)@.len() == old(accounts)@.len(),
        r is Err ==> states(final(accounts)@) == states(old(accounts)@),
        match spec_process_authorize_checked(states(old(accounts)@), authority_type) {
            Ok(s) => r is Ok && states(final(accounts)@) == s,
            Err(e) => r == Err::<(), ProgramError>(e),
        },
{
    if accounts.len() < 4 {
        return Err(ProgramError::NotEnoughAccountKeys);
    }
    if !pubkey_eq(&accounts[0].owner, &crate::ID) || !accounts[0].is_writable {
        return Err(ProgramError::IncorrectProgramId);
    }
    if !pubkey_eq(&accounts[1].key, &CLOCK_ID) {
        return Err(ProgramError::InvalidArgument);
    }
    if !accounts[3].is_signer {
        return Err(ProgramError::MissingRequiredSignature);
    }
    let clock = Clock::from_account_info(&accounts[1])?;
    let signers = collect_signer_keys(accounts)?;
    let new_authorized = accounts[3].key;
    authorize_stake_account(accounts, new_authorized, authority_type, signers.as_slice(), 4, &clock)
}

} // verus!
