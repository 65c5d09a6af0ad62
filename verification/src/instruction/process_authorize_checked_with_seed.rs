//! `AuthorizeCheckedWithSeed`: change an authority to a signing account,
//! signed through a base account.
use vstd::prelude::*;

use crate::error::ProgramError;
use crate::helpers::constant::{MAXIMUM_SIGNERS, MAX_SEED_LEN};
use crate::instruction::{authorize_stake_account, account_at, collect_signer_keys, spec_authorize_stake, spec_signers};
use crate::pubkey::{contains_pubkey, pubkey_eq, Pubkey};
use crate::helpers::utils::spec_get_stake_state;
use crate::state::account_info::{lemma_signer_keys_contains, signed_by, signer_keys, states, AccountInfo, AccountState};
use crate::state::stake_state_v2::StakeStateV2;
use crate::state::accounts::{AuthorizeCheckedWithSeedData, StakeAuthorize};
use crate::sysvars::{spec_clock_from_account, Clock, CLOCK_ID};

verus! {

/// The signer list with the address derived from the base account appended,
/// while fewer than `MAXIMUM_SIGNERS` are listed.
pub open spec fn spec_with_derived(signers: Seq<Pubkey>, derived: Pubkey) -> Seq<Pubkey> {
    if signers.len() < MAXIMUM_SIGNERS {
        signers.push(derived)
    } else {
        signers
    }
}

/// What `AuthorizeCheckedWithSeed` gives, where `derived` is the address
/// derived from the base account's key with the seed for the seed owner, or
/// the error that deriving it gave. Accounts: the stake account (owned by the
/// program, writable), the base account, the clock sysvar, the new authority
/// (which must sign), and optionally the lockup custodian. Both the base and
/// the new authority must be among the signers; a signing base vouches for
/// the derived address alone, which joins the signers.
pub open spec fn spec_process_authorize_checked_with_seed(
    accs: Seq<AccountState>,
    stake_authorize: StakeAuthorize,
    derived: Result<Pubkey, ProgramError>,
) -> Result<Seq<AccountState>, ProgramError> {
    if accs.len() < 4 {
        Err(ProgramError::NotEnoughAccountKeys)
    } else if accs[0].owner != crate::ID || !accs[0].is_writable {
        Err(ProgramError::IncorrectProgramId)
    } else if accs[2].key != CLOCK_ID {
        Err(ProgramError::InvalidArgument)
    } else if !accs[3].is_signer {
        Err(ProgramError::MissingRequiredSignature)
    } else {
        match spec_clock_from_account(accs[2]) {
            Err(e) => Err(e),
            Ok(clock) => match spec_signers(accs) {
                Err(e) => Err(e),
                Ok(signers) => {
                    if !signers.contains(accs[1].key) {
                        Err(ProgramError::MissingRequiredSignature)
                    } else {
                        match derived {
                            Err(e) => Err(e),
                            Ok(d) => if !signers.contains(accs[3].key) {
                                Err(ProgramError::MissingRequiredSignature)
                            } else {
                                spec_authorize_stake(accs, accs[3].key, stake_authorize, spec_with_derived(signers, d), account_at(accs, 4), clock)
                            },
                        }
                    }
                },
            },
        }
    }
}

/// Whether `k` signed the instruction or is the derived address `d`.
pub open spec fn signed_or_derived(accs: Seq<AccountState>, k: Pubkey, d: Pubkey) -> bool {
    signed_by(accs, k) || k == d
}

/// An address in the signer list with the derived address appended signed
/// the instruction or is the derived address.
proof fn lemma_with_derived_contains(accs: Seq<AccountState>, d: Pubkey, k: Pubkey)
    requires
        spec_with_derived(signer_keys(accs), d).contains(k),
    ensures
        signed_or_derived(accs, k, d),
{
    let keys = signer_keys(accs);
    let list = spec_with_derived(keys, d);
    let j = choose|j: int| 0 <= j < list.len() && list[j] == k;
    if j < keys.len() {
        assert(keys[j] == k);
        assert(keys.contains(k));
        lemma_signer_keys_contains(accs, k);
    }
}

/// A signing base vouches for the derived address alone: a change that
/// succeeds had the base and the new authority sign, and its authority (the
/// staker or withdrawer for a new staker, the withdrawer for a new
/// withdrawer) signed the instruction or is the derived address.
pub proof fn lemma_seed_change_needs_signer_or_derived(accs: Seq<AccountState>, which: StakeAuthorize, d: Pubkey)
    requires
        spec_process_authorize_checked_with_seed(accs, which, Ok(d)) is Ok,
    ensures
        signed_by(accs, accs[1].key),
        accs[3].is_signer,
        spec_get_stake_state(accs[0]) matches Ok(state) && match state {
            StakeStateV2::Initialized(m) => match which {
                StakeAuthorize::Staker => signed_or_derived(accs, m.authorized.staker, d)
                    || signed_or_derived(accs, m.authorized.withdrawer, d),
                StakeAuthorize::Withdrawer => signed_or_derived(accs, m.authorized.withdrawer, d),
            },
            StakeStateV2::Stake(m, _, _) => match which {
                StakeAuthorize::Staker => signed_or_derived(accs, m.authorized.staker, d)
                    || signed_or_derived(accs, m.authorized.withdrawer, d),
                StakeAuthorize::Withdrawer => signed_or_derived(accs, m.authorized.withdrawer, d),
            },
            _ => false,
        },
{
    lemma_signer_keys_contains(accs, accs[1].key);
    let m = match spec_get_stake_state(accs[0])->Ok_0 {
        StakeStateV2::Initialized(m) => m,
        StakeStateV2::Stake(m, _, _) => m,
        _ => arbitrary(),
    };
    let list = spec_with_derived(signer_keys(accs), d);
    if list.contains(m.authorized.staker) {
        lemma_with_derived_contains(accs, d, m.authorized.staker);
    }
    if list.contains(m.authorized.withdrawer) {
        lemma_with_derived_contains(accs, d, m.authorized.withdrawer);
    }
}

/// Changes the staker or withdrawer of the stake account to the fourth
/// account, which must sign, authorized through the signing base account:
/// `derived` is the address derived from the base account's key with
/// `args.authority_seed` for `args.authority_owner` (or the error deriving it
/// gave), and counts as a signer when the base signs.
pub fn process_authorize_checked_with_seed(
    accounts: &mut Vec<AccountInfo>,
    args: AuthorizeCheckedWithSeedData,
    derived: Result<Pubkey, ProgramError>,
) -> (r: Result<(), ProgramError>)
    ensures
        final(accounts)@.len() == old(accounts)@.len(),
        r is Err ==> states(final(accounts)@) == states(old(accounts)@),
        match spec_process_authorize_checked_with_seed(states(old(accounts)@), args.stake_authorize, derived) {
            Ok(s) => r is Ok && states(final(accounts)@) == s,
            Err(e) => r == Err::<(), ProgramError>(e),
        },
{
    let role = args.stake_authorize;
    if accounts.len() < 4 {
        return Err(ProgramError::NotEnoughAccountKeys);
    }
    if !pubkey_eq(&accounts[0].owner, &crate::ID) || !accounts[0].is_writable {
        return Err(ProgramError::IncorrectProgramId);
    }
    if !pubkey_eq(&accounts[2].key, &CLOCK_ID) {
        return Err(ProgramError::InvalidArgument);
    }
    if !accounts[3].is_signer {
        return Err(ProgramError::MissingRequiredSignature);
    }
    let clock = Clock::from_account_info(&accounts[2])?;
    let mut signers = collect_signer_keys(accounts)?;
    let base_pk = accounts[1].key;
    let new_pk = accounts[3].key;
    if !contains_pubkey(signers.as_slice(), &base_pk) {
        return Err(ProgramError::MissingRequiredSignature);
    }
    let derived_pk = derived?;
    let new_in_signers = contains_pubkey(signers.as_slice(), &new_pk);
    if signers.len() < MAXIMUM_SIGNERS {
        signers.push(derived_pk);
    }
    if !new_in_signers {
        return Err(ProgramError::MissingRequiredSignature);
    }
    authorize_stake_account(accounts, new_pk, role, signers.as_slice(), 4, &clock)
}

/// What an address derived from `base` with `seed` for `owner` is hashed
/// from: the three byte strings one after another; seeds longer than 32 bytes
/// are `InvalidInstructionData`.
pub open spec fn spec_seed_derivation_input(base: Pubkey, seed: Seq<u8>, owner: Pubkey) -> Result<Seq<u8>, ProgramError> {
    if seed.len() > MAX_SEED_LEN {
        Err(ProgramError::InvalidInstructionData)
    } else {
        Ok(base@ + seed + owner@)
    }
}

/// The bytes whose SHA-256 digest is the address derived from `base` with `seed` for `owner`.
pub fn seed_derivation_input(base: &Pubkey, seed: &[u8], owner: &Pubkey) -> (r: Result<Vec<u8>, ProgramError>)
    ensures
        match spec_seed_derivation_input(*base, seed@, *owner) {
            Ok(b) => r matches Ok(v) && v@ == b,
            Err(e) => r == Err::<Vec<u8>, ProgramError>(e),
        },
{
    if seed.len() > MAX_SEED_LEN {
        return Err(ProgramError::InvalidInstructionData);
    }
    let mut buf: Vec<u8> = Vec::new();
    crate::bytes::push_pubkey(&mut buf, base);
    let mut i: usize = 0;
    while i < seed.len()
        invariant
            0 <= i <= seed@.len(),
            buf@ == base@ + seed@.subrange(0, i as int),
        decreases seed@.len() - i,
    {
        buf.push(seed[i]);
        i = i + 1;
        proof {
            assert(seed@.subrange(0, i as int) =~= seed@.subrange(0, (i - 1) as int).push(seed@[i - 1]));
        }
    }
    crate::bytes::push_pubkey(&mut buf, owner);
    proof {
        assert(seed@.subrange(0, seed@.len() as int) =~= seed@);
    }
    Ok(buf)
}

} // verus!
