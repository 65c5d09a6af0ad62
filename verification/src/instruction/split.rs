//! `Split`: move part of a stake account into a fresh stake account.
use vstd::prelude::*;

use crate::error::{spec_to_program_error, to_program_error, ProgramError, StakeError};
use crate::helpers::constant::MAXIMUM_SIGNERS;
use crate::helpers::utils::{
    collect_signers, get_minimum_delegation, get_stake_state, lemma_relocate_conserves, relocate_lamports, sat_sub,
    set_stake_state_at,
    spec_get_stake_state, spec_minimum_delegation, spec_relocate, spec_validate_split_amount, validate_split_amount,
    TOO_MANY_SIGNERS,
};
use crate::instruction::{lemma_store_keeps_lamports, spec_store};
use crate::pubkey::{pubkey_eq, Pubkey, DEFAULT_PUBKEY};
use crate::state::account_info::{
    copy_accounts, lemma_signer_keys_contains, same_layout, signed_by, signer_keys, states, total_lamports, AccountInfo,
    AccountState,
};
use crate::state::accounts::StakeAuthorize;
use crate::state::delegation::{Delegation, Stake};
use crate::state::stake_flag::StakeFlags;
use crate::state::stake_history::StakeActivationStatus;
use crate::state::stake_state_v2::{delegated_stake_of, spec_deserialize, StakeStateV2};
use crate::state::state::Meta;
use crate::sysvars::Clock;

verus! {

/// The 32-entry signer array the split checks authority against: the
/// signers, then zero addresses.
pub open spec fn signer_array(accs: Seq<AccountState>) -> Seq<Pubkey> {
    signer_keys(accs) + Seq::new((MAXIMUM_SIGNERS - signer_keys(accs).len()) as nat, |i: int| DEFAULT_PUBKEY)
}

/// How much stake leaves the source and how much the new stake holds, for a
/// split that leaves `source_remaining_balance` in the source: all of the
/// split less the source's reserve if nothing remains; otherwise the split,
/// and the split less what the destination lacks of its reserve, provided
/// the source keeps at least the minimum delegation
/// (`InsufficientDelegation` otherwise).
pub open spec fn spec_split_amounts(
    source_stake: Stake,
    source_meta: Meta,
    split_lamports: u64,
    source_remaining_balance: u64,
    destination_rent_exempt_reserve: u64,
    destination_lamports: u64,
) -> Result<(u64, u64), ProgramError> {
    if source_remaining_balance == 0 {
        let delta = sat_sub(split_lamports, source_meta.rent_exempt_reserve);
        Ok((delta, delta))
    } else if sat_sub(source_stake.delegation.stake, split_lamports) < spec_minimum_delegation() {
        Err(spec_to_program_error(StakeError::InsufficientDelegation))
    } else {
        Ok((split_lamports, sat_sub(split_lamports, sat_sub(destination_rent_exempt_reserve, destination_lamports))))
    }
}

/// The accounts after a split writes its states, before any lamports move:
/// a delegated source splits its stake between itself and the destination,
/// an initialized one gives the destination a copy of its metadata, an
/// uninitialized one that signed writes nothing.
pub open spec fn spec_split_states(
    accs: Seq<AccountState>,
    split_lamports: u64,
    destination_reserve: u64,
    source_status: StakeActivationStatus,
) -> Result<Seq<AccountState>, ProgramError> {
    let minimum = spec_minimum_delegation();
    let source_balance = accs[0].lamports;
    let destination_balance = accs[1].lamports;
    let signers = signer_array(accs);
    match spec_get_stake_state(accs[0]) {
        Err(e) => Err(e),
        Ok(StakeStateV2::Stake(source_meta, source_stake, flags)) => {
            if !signers.contains(source_meta.authorized.staker) {
                Err(ProgramError::MissingRequiredSignature)
            } else {
                match spec_validate_split_amount(
                    source_balance,
                    destination_balance,
                    split_lamports,
                    source_meta.rent_exempt_reserve,
                    destination_reserve,
                    minimum,
                    source_status.effective > 0,
                ) {
                    Err(e) => Err(e),
                    Ok(info) => match spec_split_amounts(
                        source_stake,
                        source_meta,
                        split_lamports,
                        info.source_remaining_balance,
                        info.destination_rent_exempt_reserve,
                        destination_balance,
                    ) {
                        Err(e) => Err(e),
                        Ok((remaining_delta, split_amount)) => {
                            if split_amount < minimum {
                                Err(spec_to_program_error(StakeError::InsufficientDelegation))
                            } else if remaining_delta > source_stake.delegation.stake {
                                Err(spec_to_program_error(StakeError::InsufficientStake))
                            } else {
                                let kept = Stake {
                                    delegation: Delegation {
                                        stake: (source_stake.delegation.stake - remaining_delta) as u64,
                                        ..source_stake.delegation
                                    },
                                    ..source_stake
                                };
                                let split_off = Stake { delegation: Delegation { stake: split_amount, ..kept.delegation }, ..kept };
                                let destination_meta = Meta { rent_exempt_reserve: info.destination_rent_exempt_reserve, ..source_meta };
                                match spec_store(accs, 0, StakeStateV2::Stake(source_meta, kept, flags)) {
                                    Err(e) => Err(e),
                                    Ok(a1) => spec_store(a1, 1, StakeStateV2::Stake(destination_meta, split_off, flags)),
                                }
                            }
                        },
                    },
                }
            }
        },
        Ok(StakeStateV2::Initialized(source_meta)) => {
            if !signers.contains(source_meta.authorized.staker) {
                Err(ProgramError::MissingRequiredSignature)
            } else {
                match spec_validate_split_amount(
                    source_balance,
                    destination_balance,
                    split_lamports,
                    source_meta.rent_exempt_reserve,
                    destination_reserve,
                    0,
                    false,
                ) {
                    Err(e) => Err(e),
                    Ok(info) => spec_store(
                        accs,
                        1,
                        StakeStateV2::Initialized(Meta { rent_exempt_reserve: info.destination_rent_exempt_reserve, ..source_meta }),
                    ),
                }
            }
        },
        Ok(StakeStateV2::Uninitialized) => {
            if !accs[0].is_signer {
                Err(ProgramError::MissingRequiredSignature)
            } else {
                Ok(accs)
            }
        },
        Ok(_) => Err(ProgramError::InvalidAccountData),
    }
}

/// What `Split` gives, `destination_reserve` being what the rent sysvar asks
/// for the destination's size and `source_status` the activation status of
/// the source's delegation. Accounts: exactly the
/// source and the destination stake account (both owned by the program) and
/// one more; the destination holds at least 194 bytes in the uninitialized
/// state. A delegated source splits its stake (the staker signing, both
/// parts keeping the minimum delegation); an initialized one copies its
/// metadata (the staker signing); an uninitialized one must sign itself.
/// The destination's reserve is `destination_reserve`. A source emptied of
/// lamports becomes uninitialized; the lamports move last.
pub open spec fn spec_process_split(
    accs: Seq<AccountState>,
    split_lamports: u64,
    destination_reserve: u64,
    source_status: StakeActivationStatus,
) -> Result<Seq<AccountState>, ProgramError> {
    let minimum = spec_minimum_delegation();
    if signer_keys(accs).len() > MAXIMUM_SIGNERS {
        Err(ProgramError::Custom(TOO_MANY_SIGNERS))
    } else if accs.len() != 3 {
        Err(ProgramError::NotEnoughAccountKeys)
    } else if accs[0].owner != crate::ID || accs[1].owner != crate::ID {
        Err(ProgramError::InvalidAccountOwner)
    } else if accs[1].data.len() < 194 {
        Err(ProgramError::InvalidAccountData)
    } else if !(spec_deserialize(accs[1].data) matches Ok(StakeStateV2::Uninitialized)) {
        Err(ProgramError::InvalidAccountData)
    } else if split_lamports > accs[0].lamports {
        Err(ProgramError::InsufficientFunds)
    } else {
        let source_balance = accs[0].lamports;
        match spec_split_states(accs, split_lamports, destination_reserve, source_status) {
            Err(e) => Err(e),
            Ok(a1) => {
                let deinitialized = if split_lamports == source_balance {
                    spec_store(a1, 0, StakeStateV2::Uninitialized)
                } else {
                    Ok(a1)
                };
                match deinitialized {
                    Err(e) => Err(e),
                    Ok(a2) => spec_relocate(a2, 0, 1, split_lamports),
                }
            },
        }
    }
}

/// Writing the split's states changes no balance and leaves the accounts
/// after the first two as they were.
proof fn lemma_split_states_keep_lamports(
    accs: Seq<AccountState>,
    split_lamports: u64,
    destination_reserve: u64,
    source_status: StakeActivationStatus,
)
    requires
        accs.len() >= 2,
        spec_split_states(accs, split_lamports, destination_reserve, source_status) is Ok,
    ensures
        spec_split_states(accs, split_lamports, destination_reserve, source_status) matches Ok(t) && {
            &&& t.len() == accs.len()
            &&& total_lamports(t) == total_lamports(accs)
            &&& same_layout(accs, t)
            &&& forall|j: int| 0 <= j < accs.len() ==> #[trigger] t[j].lamports == accs[j].lamports
            &&& forall|j: int| 2 <= j < accs.len() ==> #[trigger] t[j] == accs[j]
            &&& spec_get_stake_state(accs[0]) matches Ok(StakeStateV2::Stake(_, s, _)) ==> delegated_stake_of(t[0].data)
                + delegated_stake_of(t[1].data) <= s.delegation.stake
        },
{
    let minimum = spec_minimum_delegation();
    match spec_get_stake_state(accs[0])->Ok_0 {
        StakeStateV2::Stake(source_meta, source_stake, flags) => {
            let info = spec_validate_split_amount(
                accs[0].lamports,
                accs[1].lamports,
                split_lamports,
                source_meta.rent_exempt_reserve,
                destination_reserve,
                minimum,
                source_status.effective > 0,
            )->Ok_0;
            let (remaining_delta, split_amount) = spec_split_amounts(
                source_stake,
                source_meta,
                split_lamports,
                info.source_remaining_balance,
                info.destination_rent_exempt_reserve,
                accs[1].lamports,
            )->Ok_0;
            let kept = Stake {
                delegation: Delegation { stake: (source_stake.delegation.stake - remaining_delta) as u64, ..source_stake.delegation },
                ..source_stake
            };
            let split_off = Stake { delegation: Delegation { stake: split_amount, ..kept.delegation }, ..kept };
            let destination_meta = Meta { rent_exempt_reserve: info.destination_rent_exempt_reserve, ..source_meta };
            lemma_store_keeps_lamports(accs, 0, StakeStateV2::Stake(source_meta, kept, flags));
            let a1 = spec_store(accs, 0, StakeStateV2::Stake(source_meta, kept, flags))->Ok_0;
            lemma_store_keeps_lamports(a1, 1, StakeStateV2::Stake(destination_meta, split_off, flags));
        },
        StakeStateV2::Initialized(source_meta) => {
            let info = spec_validate_split_amount(
                accs[0].lamports,
                accs[1].lamports,
                split_lamports,
                source_meta.rent_exempt_reserve,
                destination_reserve,
                0,
                false,
            )->Ok_0;
            lemma_store_keeps_lamports(
                accs,
                1,
                StakeStateV2::Initialized(Meta { rent_exempt_reserve: info.destination_rent_exempt_reserve, ..source_meta }),
            );
        },
        _ => {},
    }
}

/// A split moves exactly the split lamports from the source to the
/// destination and keeps the total; a source split off entirely is left
/// uninitialized. It never creates stake: what the two accounts delegate
/// afterwards adds up to at most what the source delegated before.
pub proof fn lemma_split_moves_exactly(
    accs: Seq<AccountState>,
    split_lamports: u64,
    destination_reserve: u64,
    source_status: StakeActivationStatus,
)
    requires
        spec_process_split(accs, split_lamports, destination_reserve, source_status) is Ok,
    ensures
        spec_process_split(accs, split_lamports, destination_reserve, source_status) matches Ok(t) && {
            &&& t.len() == accs.len()
            &&& t[0].lamports == accs[0].lamports - split_lamports
            &&& t[1].lamports == accs[1].lamports + split_lamports
            &&& t[2] == accs[2]
            &&& total_lamports(t) == total_lamports(accs)
            &&& same_layout(accs, t)
            &&& split_lamports == accs[0].lamports ==> spec_deserialize(t[0].data)
                == Ok::<StakeStateV2, ProgramError>(StakeStateV2::Uninitialized)
            &&& spec_get_stake_state(accs[0]) matches Ok(StakeStateV2::Stake(_, s, _)) ==> delegated_stake_of(t[0].data)
                + delegated_stake_of(t[1].data) <= s.delegation.stake
        },
{
    lemma_split_states_keep_lamports(accs, split_lamports, destination_reserve, source_status);
    let a1 = spec_split_states(accs, split_lamports, destination_reserve, source_status)->Ok_0;
    if split_lamports == accs[0].lamports {
        lemma_store_keeps_lamports(a1, 0, StakeStateV2::Uninitialized);
        let a2 = spec_store(a1, 0, StakeStateV2::Uninitialized)->Ok_0;
        lemma_relocate_conserves(a2, 0, 1, split_lamports);
    } else {
        lemma_relocate_conserves(a1, 0, 1, split_lamports);
    }
}

/// `a + b`, or `u64::MAX` where that does not fit.
pub open spec fn capped_sum(a: int, b: int) -> int {
    if a + b > u64::MAX { u64::MAX as int } else { a + b }
}

/// A split keeps both accounts funded. From an initialized or delegated
/// source, the destination ends with at least its reserve (plus the minimum
/// delegation for a delegated source), and a source that keeps lamports keeps
/// at least its own reserve (plus the minimum delegation); sums that do not
/// fit in `u64` are capped. An active source that keeps lamports only splits
/// into a destination that already held its reserve.
pub proof fn lemma_split_keeps_reserves(
    accs: Seq<AccountState>,
    split_lamports: u64,
    destination_reserve: u64,
    source_status: StakeActivationStatus,
)
    requires
        spec_process_split(accs, split_lamports, destination_reserve, source_status) is Ok,
    ensures
        spec_process_split(accs, split_lamports, destination_reserve, source_status) matches Ok(t) && {
            let minimum = spec_minimum_delegation() as int;
            &&& spec_get_stake_state(accs[0]) matches Ok(StakeStateV2::Stake(m, _, _)) ==> {
                &&& t[1].lamports >= capped_sum(destination_reserve as int, minimum)
                &&& split_lamports < accs[0].lamports ==> t[0].lamports >= capped_sum(m.rent_exempt_reserve as int, minimum)
                &&& split_lamports < accs[0].lamports && source_status.effective > 0 ==> accs[1].lamports >= destination_reserve
            }
            &&& spec_get_stake_state(accs[0]) matches Ok(StakeStateV2::Initialized(m)) ==> {
                &&& t[1].lamports >= destination_reserve
                &&& split_lamports < accs[0].lamports ==> t[0].lamports >= m.rent_exempt_reserve
            }
        },
{
    lemma_split_moves_exactly(accs, split_lamports, destination_reserve, source_status);
}

/// How a split divides a delegated stake. The destination becomes a stake
/// delegated like the source (same vote account, epochs and credits), whose
/// metadata is the source's with `destination_reserve` as reserve. Where the
/// source keeps lamports, the destination delegates the split lamports less
/// only what its existing balance lacks of that reserve (all of them where it
/// already holds it), and the source's delegated stake falls by the split
/// lamports, all else kept. Where the source is split off entirely, the
/// destination delegates the split less the source's reserve.
pub proof fn lemma_split_divides_delegated_stake(
    accs: Seq<AccountState>,
    split_lamports: u64,
    destination_reserve: u64,
    source_status: StakeActivationStatus,
    meta: Meta,
    stake: Stake,
    flags: StakeFlags,
)
    requires
        spec_process_split(accs, split_lamports, destination_reserve, source_status) is Ok,
        spec_get_stake_state(accs[0]) == Ok::<StakeStateV2, ProgramError>(StakeStateV2::Stake(meta, stake, flags)),
    ensures
        spec_process_split(accs, split_lamports, destination_reserve, source_status) matches Ok(t) && {
            let lacking: int = if destination_reserve > accs[1].lamports { destination_reserve - accs[1].lamports } else { 0 };
            &&& spec_deserialize(t[1].data) matches Ok(StakeStateV2::Stake(m1, s1, f1)) && {
                &&& m1 == (Meta { rent_exempt_reserve: destination_reserve, ..meta })
                &&& f1 == flags
                &&& s1 == (Stake { delegation: Delegation { stake: s1.delegation.stake, ..stake.delegation }, ..stake })
                &&& split_lamports < accs[0].lamports ==> s1.delegation.stake + lacking == split_lamports
                &&& split_lamports == accs[0].lamports ==> s1.delegation.stake == (if split_lamports > meta.rent_exempt_reserve {
                    split_lamports - meta.rent_exempt_reserve
                } else {
                    0
                })
            }
            &&& split_lamports < accs[0].lamports ==> spec_deserialize(t[0].data) == Ok::<StakeStateV2, ProgramError>(
                StakeStateV2::Stake(
                    meta,
                    Stake { delegation: Delegation { stake: (stake.delegation.stake - split_lamports) as u64, ..stake.delegation }, ..stake },
                    flags,
                ),
            )
            &&& split_lamports < accs[0].lamports ==> stake.delegation.stake >= split_lamports
        },
{
    let minimum = spec_minimum_delegation();
    let info = spec_validate_split_amount(
        accs[0].lamports,
        accs[1].lamports,
        split_lamports,
        meta.rent_exempt_reserve,
        destination_reserve,
        minimum,
        source_status.effective > 0,
    )->Ok_0;
    let (remaining_delta, split_amount) = spec_split_amounts(
        stake,
        meta,
        split_lamports,
        info.source_remaining_balance,
        info.destination_rent_exempt_reserve,
        accs[1].lamports,
    )->Ok_0;
    let kept = Stake {
        delegation: Delegation { stake: (stake.delegation.stake - remaining_delta) as u64, ..stake.delegation },
        ..stake
    };
    let split_off = Stake { delegation: Delegation { stake: split_amount, ..kept.delegation }, ..kept };
    let destination_meta = Meta { rent_exempt_reserve: info.destination_rent_exempt_reserve, ..meta };
    lemma_store_keeps_lamports(accs, 0, StakeStateV2::Stake(meta, kept, flags));
    let a0 = spec_store(accs, 0, StakeStateV2::Stake(meta, kept, flags))->Ok_0;
    lemma_store_keeps_lamports(a0, 1, StakeStateV2::Stake(destination_meta, split_off, flags));
    let a1 = spec_store(a0, 1, StakeStateV2::Stake(destination_meta, split_off, flags))->Ok_0;
    assert(a1 == spec_split_states(accs, split_lamports, destination_reserve, source_status)->Ok_0);
    if split_lamports == accs[0].lamports {
        lemma_store_keeps_lamports(a1, 0, StakeStateV2::Uninitialized);
        let a2 = spec_store(a1, 0, StakeStateV2::Uninitialized)->Ok_0;
        lemma_relocate_conserves(a2, 0, 1, split_lamports);
    } else {
        lemma_relocate_conserves(a1, 0, 1, split_lamports);
    }
}

/// An address listed in the padded signer array either signed or is the
/// zero address that pads the array.
proof fn lemma_signer_array_contains(accs: Seq<AccountState>, k: Pubkey)
    requires
        signer_keys(accs).len() <= MAXIMUM_SIGNERS,
        signer_array(accs).contains(k),
    ensures
        signed_by(accs, k) || k == DEFAULT_PUBKEY,
{
    let keys = signer_keys(accs);
    let j = choose|j: int| 0 <= j < signer_array(accs).len() && signer_array(accs)[j] == k;
    if j < keys.len() {
        assert(keys[j] == k);
        assert(keys.contains(k));
        lemma_signer_keys_contains(accs, k);
    }
}

/// Who may split what: a split that succeeds had exactly three accounts,
/// both stake accounts owned by the program, a destination holding the
/// uninitialized state, and no more lamports taken than the source held.
/// A delegated or initialized source was split by its staker's signature
/// (or a zero staker); an uninitialized source signed for itself.
pub proof fn lemma_split_admits_only_authorized(
    accs: Seq<AccountState>,
    split_lamports: u64,
    destination_reserve: u64,
    source_status: StakeActivationStatus,
)
    requires
        spec_process_split(accs, split_lamports, destination_reserve, source_status) is Ok,
    ensures
        accs.len() == 3,
        accs[0].owner == crate::ID && accs[1].owner == crate::ID,
        spec_deserialize(accs[1].data) == Ok::<StakeStateV2, ProgramError>(StakeStateV2::Uninitialized),
        split_lamports <= accs[0].lamports,
        match spec_get_stake_state(accs[0]) {
            Ok(StakeStateV2::Stake(m, _, _)) => signed_by(accs, m.authorized.staker) || m.authorized.staker == DEFAULT_PUBKEY,
            Ok(StakeStateV2::Initialized(m)) => signed_by(accs, m.authorized.staker) || m.authorized.staker == DEFAULT_PUBKEY,
            Ok(StakeStateV2::Uninitialized) => accs[0].is_signer,
            _ => false,
        },
{
    match spec_get_stake_state(accs[0]) {
        Ok(StakeStateV2::Stake(m, _, _)) => lemma_signer_array_contains(accs, m.authorized.staker),
        Ok(StakeStateV2::Initialized(m)) => lemma_signer_array_contains(accs, m.authorized.staker),
        _ => {},
    }
}

/// Splits `split_lamports` off the source stake account into the destination,
/// whose reserve is `destination_reserve`, what the rent sysvar asks for its size.
/// A refusal leaves every account as it was, whatever step refused.
pub fn process_split(
    accounts: &mut Vec<AccountInfo>,
    split_lamports: u64,
    clock: &Clock,
    destination_reserve: u64,
    source_status: &StakeActivationStatus,
) -> (r: Result<(), ProgramError>)
    ensures
        final(accounts)@.len() == old(accounts)@.len(),
        r is Err ==> states(final(accounts)@) == states(old(accounts)@),
        match spec_process_split(states(old(accounts)@), split_lamports, destination_reserve, *source_status) {
            Ok(s) => r is Ok && states(final(accounts)@) == s,
            Err(e) => r == Err::<(), ProgramError>(e),
        },
{
    let saved = copy_accounts(accounts);
    let r = split_steps(accounts, split_lamports, clock, destination_reserve, source_status);
    if r.is_err() {
        *accounts = saved;
    }
    r
}

/// The steps of `process_split`, which may have written to the accounts when they fail.
fn split_steps(
    accounts: &mut Vec<AccountInfo>,
    split_lamports: u64,
    clock: &Clock,
    destination_reserve: u64,
    source_status: &StakeActivationStatus,
) -> (r: Result<(), ProgramError>)
    ensures
        final(accounts)@.len() == old(accounts)@.len(),
        match spec_process_split(states(old(accounts)@), split_lamports, destination_reserve, *source_status) {
            Ok(s) => r is Ok && states(final(accounts)@) == s,
            Err(e) => r == Err::<(), ProgramError>(e),
        },
{
    let ghost accs = states(accounts@);
    let mut arr_of_signers: [Pubkey; 32] = [DEFAULT_PUBKEY; 32];
    let n = collect_signers(accounts.as_slice(), &mut arr_of_signers)?;
    proof {
        assert(arr_of_signers@ =~= signer_array(accs));
    }
    if accounts.len() != 3 {
        return Err(ProgramError::NotEnoughAccountKeys);
    }
    if !pubkey_eq(&accounts[0].owner, &crate::ID) {
        return Err(ProgramError::InvalidAccountOwner);
    }
    if !pubkey_eq(&accounts[1].owner, &crate::ID) {
        return Err(ProgramError::InvalidAccountOwner);
    }
    let destination_data_len = accounts[1].data.len();
    if destination_data_len < StakeStateV2::size_of() {
        return Err(ProgramError::InvalidAccountData);
    }
    match StakeStateV2::deserialize(accounts[1].data.as_slice()) {
        Ok(StakeStateV2::Uninitialized) => {},
        _ => return Err(ProgramError::InvalidAccountData),
    }
    let source_lamport_balance = accounts[0].lamports;
    let destination_lamport_balance = accounts[1].lamports;
    if split_lamports > source_lamport_balance {
        return Err(ProgramError::InsufficientFunds);
    }
    let state = get_stake_state(&accounts[0])?;
    match state {
        StakeStateV2::Stake(source_meta, source_stake, stake_flags) => {
            if let Err(e) = source_meta.authorized.check(arr_of_signers.as_slice(), StakeAuthorize::Staker) {
                return Err(to_program_error(e));
            }
            let minimum_delegation = get_minimum_delegation();
            let is_active = source_status.effective > 0;
            let validated_split_info = validate_split_amount(
                source_lamport_balance,
                destination_lamport_balance,
                split_lamports,
                &source_meta,
                destination_reserve,
                minimum_delegation,
                is_active,
            )?;
            let (remaining_stake_delta, split_stake_amount) = if validated_split_info.source_remaining_balance == 0 {
                let remaining_stake_delta = split_lamports.saturating_sub(source_meta.rent_exempt_reserve);
                (remaining_stake_delta, remaining_stake_delta)
            } else {
                if source_stake.delegation.stake.saturating_sub(split_lamports) < minimum_delegation {
                    return Err(to_program_error(StakeError::InsufficientDelegation));
                }
                (
                    split_lamports,
                    split_lamports.saturating_sub(
                        validated_split_info.destination_rent_exempt_reserve.saturating_sub(destination_lamport_balance),
                    ),
                )
            };
            if split_stake_amount < minimum_delegation {
                return Err(to_program_error(StakeError::InsufficientDelegation));
            }
            let mut source_stake = source_stake;
            let destination_stake = match source_stake.split(remaining_stake_delta, split_stake_amount) {
                Ok(s) => s,
                Err(e) => return Err(to_program_error(e)),
            };
            let mut destination_meta = source_meta;
            destination_meta.rent_exempt_reserve = validated_split_info.destination_rent_exempt_reserve;
            set_stake_state_at(accounts, 0, &StakeStateV2::Stake(source_meta, source_stake, stake_flags))?;
            set_stake_state_at(accounts, 1, &StakeStateV2::Stake(destination_meta, destination_stake, stake_flags))?;
        },
        StakeStateV2::Initialized(source_meta) => {
            if let Err(e) = source_meta.authorized.check(arr_of_signers.as_slice(), StakeAuthorize::Staker) {
                return Err(to_program_error(e));
            }
            let validated_split_info = validate_split_amount(
                source_lamport_balance,
                destination_lamport_balance,
                split_lamports,
                &source_meta,
                destination_reserve,
                0,
                false,
            )?;
            let mut destination_meta = source_meta;
            destination_meta.rent_exempt_reserve = validated_split_info.destination_rent_exempt_reserve;
            set_stake_state_at(accounts, 1, &StakeStateV2::Initialized(destination_meta))?;
        },
        StakeStateV2::Uninitialized => {
            if !accounts[0].is_signer {
                return Err(ProgramError::MissingRequiredSignature);
            }
        },
        _ => return Err(ProgramError::InvalidAccountData),
    }
    if split_lamports == source_lamport_balance {
        set_stake_state_at(accounts, 0, &StakeStateV2::Uninitialized)?;
    }
    relocate_lamports(accounts, 0, 1, split_lamports)
}

} // verus!
