//! Changing the authorities of a stake account.
use vstd::prelude::*;

use crate::error::ProgramError;
use crate::pubkey::{contains_pubkey, pubkey_eq, Pubkey};
use crate::state::account_info::{AccountInfo, AccountState};
use crate::state::accounts::{Authorized, StakeAuthorize};
use crate::state::state::Meta;
use crate::sysvars::Clock;

verus! {

/// Whether the lockup of `meta` is in force at `clock` for an authority
/// change: its epoch or its time still lies ahead.
pub open spec fn spec_lockup_blocks_authority_change(meta: Meta, clock: Clock) -> bool {
    meta.lockup.epoch > clock.epoch || meta.lockup.unix_timestamp > clock.unix_timestamp
}

/// What changing an authority gives. The staker may be changed by the staker
/// or the withdrawer; the withdrawer only by the withdrawer, and while the
/// lockup is in force only with the custodian signing as the optional lockup
/// authority account. A missing signature is `MissingRequiredSignature`.
pub open spec fn spec_authorize_update(
    meta: Meta,
    new_authorized: Pubkey,
    which: StakeAuthorize,
    signers: Seq<Pubkey>,
    lockup_authority: Option<AccountState>,
    clock: Clock,
) -> Result<Meta, ProgramError> {
    match which {
        StakeAuthorize::Staker => {
            if signers.contains(meta.authorized.staker) || signers.contains(meta.authorized.withdrawer) {
                Ok(Meta { authorized: Authorized { staker: new_authorized, ..meta.authorized }, ..meta })
            } else {
                Err(ProgramError::MissingRequiredSignature)
            }
        },
        StakeAuthorize::Withdrawer => {
            if !signers.contains(meta.authorized.withdrawer) {
                Err(ProgramError::MissingRequiredSignature)
            } else if spec_lockup_blocks_authority_change(meta, clock) && !(lockup_authority matches Some(a) && a.is_signer
                && a.key == meta.lockup.custodian) {
                Err(ProgramError::MissingRequiredSignature)
            } else {
                Ok(Meta { authorized: Authorized { withdrawer: new_authorized, ..meta.authorized }, ..meta })
            }
        },
    }
}

/// `meta` with the authority that `which` names set to `new_authorized`.
pub open spec fn spec_with_authority(meta: Meta, which: StakeAuthorize, new_authorized: Pubkey) -> Meta {
    match which {
        StakeAuthorize::Staker => Meta { authorized: Authorized { staker: new_authorized, ..meta.authorized }, ..meta },
        StakeAuthorize::Withdrawer => Meta { authorized: Authorized { withdrawer: new_authorized, ..meta.authorized }, ..meta },
    }
}

/// An authority change sets exactly the named authority: the other
/// authority, the lockup and the reserve stay.
pub proof fn lemma_authorize_update_sets_only_named(
    meta: Meta,
    new_authorized: Pubkey,
    which: StakeAuthorize,
    signers: Seq<Pubkey>,
    lockup_authority: Option<AccountState>,
    clock: Clock,
)
    requires
        spec_authorize_update(meta, new_authorized, which, signers, lockup_authority, clock) is Ok,
    ensures
        spec_authorize_update(meta, new_authorized, which, signers, lockup_authority, clock)
            == Ok::<Meta, ProgramError>(spec_with_authority(meta, which, new_authorized)),
        spec_with_authority(meta, which, new_authorized).authorized.authority(which) == new_authorized,
        which == StakeAuthorize::Staker ==> spec_with_authority(meta, which, new_authorized).authorized.withdrawer
            == meta.authorized.withdrawer,
        which == StakeAuthorize::Withdrawer ==> spec_with_authority(meta, which, new_authorized).authorized.staker
            == meta.authorized.staker,
        spec_with_authority(meta, which, new_authorized).lockup == meta.lockup,
        spec_with_authority(meta, which, new_authorized).rent_exempt_reserve == meta.rent_exempt_reserve,
{
}

/// Who may change an authority: a new staker needs the staker's or the
/// withdrawer's signature; a new withdrawer needs the withdrawer's, and while
/// the lockup blocks the change (its epoch or time not yet reached) also the
/// custodian signing as the lockup authority account.
pub proof fn lemma_authorize_update_needs_authority(
    meta: Meta,
    new_authorized: Pubkey,
    which: StakeAuthorize,
    signers: Seq<Pubkey>,
    lockup_authority: Option<AccountState>,
    clock: Clock,
)
    requires
        spec_authorize_update(meta, new_authorized, which, signers, lockup_authority, clock) is Ok,
    ensures
        which == StakeAuthorize::Staker ==> signers.contains(meta.authorized.staker) || signers.contains(meta.authorized.withdrawer),
        which == StakeAuthorize::Withdrawer ==> signers.contains(meta.authorized.withdrawer),
        which == StakeAuthorize::Withdrawer && (meta.lockup.epoch > clock.epoch || meta.lockup.unix_timestamp > clock.unix_timestamp)
            ==> (lockup_authority matches Some(a) && a.is_signer && a.key == meta.lockup.custodian),
{
}

/// The optional account as a value.
pub open spec fn opt_state(a: Option<&AccountInfo>) -> Option<AccountState> {
    match a {
        Some(x) => Some(x@),
        None => None,
    }
}

/// Changes the staker or withdrawer of `meta`, with `signers` the signers of
/// the instruction and `maybe_lockup_authority` the account that may hold
/// the custodian's signature.
pub fn authorize_update(
    meta: &mut Meta,
    new_authorized: Pubkey,
    which: StakeAuthorize,
    signers: &[Pubkey],
    maybe_lockup_authority: Option<&AccountInfo>,
    clock: &Clock,
) -> (r: Result<(), ProgramError>)
    ensures
        match spec_authorize_update(*old(meta), new_authorized, which, signers@, opt_state(maybe_lockup_authority), *clock) {
            Ok(m) => r is Ok && *final(meta) == m,
            Err(e) => r == Err::<(), ProgramError>(e) && *final(meta) == *old(meta),
        },
{
    match which {
        StakeAuthorize::Staker => {
            if !(contains_pubkey(signers, &meta.authorized.staker) || contains_pubkey(signers, &meta.authorized.withdrawer)) {
                return Err(ProgramError::MissingRequiredSignature);
            }
            meta.authorized.staker = new_authorized;
        },
        StakeAuthorize::Withdrawer => {
            if !contains_pubkey(signers, &meta.authorized.withdrawer) {
                return Err(ProgramError::MissingRequiredSignature);
            }
            let epoch_in_force = meta.lockup.epoch > clock.epoch;
            let ts_in_force = meta.lockup.unix_timestamp > clock.unix_timestamp;
            if epoch_in_force || ts_in_force {
                let custodian_ok = match maybe_lockup_authority {
                    Some(a) => a.is_signer && pubkey_eq(&a.key, &meta.lockup.custodian),
                    None => false,
                };
                if !custodian_ok {
                    return Err(ProgramError::MissingRequiredSignature);
                }
            }
            meta.authorized.withdrawer = new_authorized;
        },
    }
    Ok(())
}

} // verus!
