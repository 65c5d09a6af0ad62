//! `Authorize`: change the staker or withdrawer to a given address.
use vstd::prelude::*;

use crate::error::ProgramError;
use crate::helpers::authorize::spec_with_authority;
use crate::helpers::utils::spec_get_stake_state;
use crate::instruction::{
    authorize_stake_account, account_at, collect_signer_keys, lemma_authorize_stake_needs_authority,
    lemma_authorize_stake_sets_only_named, spec_authorize_stake, spec_signers,
};
use crate::pubkey::{pubkey_eq, Pubkey};
use crate::state::account_info::{
    same_layout, signed_by, states, total_lamports, AccountInfo, AccountState,
};
use crate::state::stake_state_v2::{spec_deserialize, StakeStateV2};
use crate::state::accounts::StakeAuthorize;
use crate::sysvars::{spec_clock_from_account, Clock, CLOCK_ID};

verus! {

/// What `Authorize` gives. Accounts: the stake account (owned by the
/// program, writable), the clock sysvar, and optionally the lockup
/// custodian; any signer among them counts.
pub open spec fn spec_process_authorize(accs: Seq<AccountState>, new_authority: Pubkey, authority_type: StakeAuthorize) -> Result<Seq<AccountState>, ProgramError> {
    if accs.len() < 2 {
        Err(ProgramError::NotEnoughAccountKeys)
    } else if accs[0].owner != crate::ID || !accs[0].is_writable {
        Err(ProgramError::IncorrectProgramId)
    } else if accs[1].key != CLOCK_ID {
        Err(ProgramError::InvalidArgument)
    } else {
        match spec_clock_from_account(accs[1]) {
            Err(e) => Err(e),
            Ok(clock) => match spec_signers(accs) {
                Err(e) => Err(e),
                Ok(signers) => spec_authorize_stake(accs, new_authority, authority_type, signers, account_at(accs, 2), clock),
            },
        }
    }
}

/// Who may `Authorize`: a new staker needs the current staker's or
/// withdrawer's signature, a new withdrawer the current withdrawer's, and
/// while the lockup blocks that also the custodian signing as the third
/// account.
pub proof fn lemma_authorize_needs_authority(accs: Seq<AccountState>, new_authority: Pubkey, authority_type: StakeAuthorize)
    requires
        spec_process_authorize(accs, new_authority, authority_type) is Ok,
    ensures
        spec_clock_from_account(accs[1]) matches Ok(clock) && spec_get_stake_state(accs[0]) matches Ok(state) && (state is Initialized
            || state is Stake) && {
            let m = match state {
                StakeStateV2::Initialized(m) => m,
                StakeStateV2::Stake(m, _, _) => m,
                _ => arbitrary(),
            };
            &&& authority_type == StakeAuthorize::Staker ==> signed_by(accs, m.authorized.staker) || signed_by(accs, m.authorized.withdrawer)
            &&& authority_type == StakeAuthorize::Withdrawer ==> signed_by(accs, m.authorized.withdrawer)
            &&& authority_type == StakeAuthorize::Withdrawer && (m.lockup.epoch > clock.epoch || m.lockup.unix_timestamp > clock.unix_timestamp)
                ==> (accs.len() > 2 && accs[2].is_signer && accs[2].key == m.lockup.custodian)
        },
{
    let clock = spec_clock_from_account(accs[1])->Ok_0;
    lemma_authorize_stake_needs_authority(accs, new_authority, authority_type, account_at(accs, 2), clock);
}

/// `Authorize` sets exactly the named authority of the stake account to
/// the new address: the other authority, the lockup, the reserve, any
/// delegation and every balance stay as they were.
pub proof fn lemma_authorize_sets_only_named(accs: Seq<AccountState>, new_authority: Pubkey, authority_type: StakeAuthorize)
    requires
        spec_process_authorize(accs, new_authority, authority_type) is Ok,
    ensures
        spec_process_authorize(accs, new_authority, authority_type) matches Ok(t) && {
            &&& t.len() == accs.len()
            &&& total_lamports(t) == total_lamports(accs)
            &&& same_layout(accs, t)
            &&& forall|j: int| 1 <= j < accs.len() ==> #[trigger] t[j] == accs[j]
            &&& spec_get_stake_state(accs[0]) matches Ok(StakeStateV2::Initialized(m0)) ==> spec_deserialize(t[0].data)
                == Ok::<StakeStateV2, ProgramError>(StakeStateV2::Initialized(spec_with_authority(m0, authority_type, new_authority)))
            &&& spec_get_stake_state(accs[0]) matches Ok(StakeStateV2::Stake(m0, s0, f0)) ==> spec_deserialize(t[0].data)
                == Ok::<StakeStateV2, ProgramError>(StakeStateV2::Stake(spec_with_authority(m0, authority_type, new_authority), s0, f0))
        },
{
    let clock = spec_clock_from_account(accs[1])->Ok_0;
    let signers = spec_signers(accs)->Ok_0;
    lemma_authorize_stake_sets_only_named(accs, new_authority, authority_type, signers, account_at(accs, 2), clock);
}

/// Changes the staker or withdrawer of the stake account to `new_authority`.
pub fn process_authorize(accounts: &mut Vec<AccountInfo>, new_authority: Pubkey, authority_type: StakeAuthorize) -> (r: Result<(), ProgramError>)
    ensures
        final(accounts)@.len() == old(accounts)@.len(),
        r is Err ==> states(final(accounts)@) == states(old(accounts)@),
        match spec_process_authorize(states(old(accounts)@), new_authority, authority_type) {
            Ok(s) => r is Ok && states(final(accounts)@) == s,
            Err(e) => r == Err::<(), ProgramError>(e),
        },
{
    if accounts.len() < 2 {
        return Err(ProgramError::NotEnoughAccountKeys);
    }
    if !pubkey_eq(&accounts[0].owner, &crate::ID) || !accounts[0].is_writable {
        return Err(ProgramError::IncorrectProgramId);
    }
    if !pubkey_eq(&accounts[1].key, &CLOCK_ID) {
        return Err(ProgramError::InvalidArgument);
    }
    let clock = Clock::from_account_info(&accounts[1])?;
    let signers = collect_signer_keys(accounts)?;
    authorize_stake_account(accounts, new_authority, authority_type, signers.as_slice(), 2, &clock)
}

} // verus!
