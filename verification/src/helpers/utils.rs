//! Reading and writing stake accounts, signer collection, delegation and split arithmetic.
use vstd::prelude::*;
use vstd::bytes::spec_u64_from_le_bytes;

use crate::bytes::{le_u64_at, pubkey_of, read_pubkey, read_u64_le};
use crate::error::{spec_to_program_error, to_program_error, ProgramError, StakeError};
use crate::helpers::constant::{
    DEFAULT_WARMUP_COOLDOWN_RATE_BITS, FEATURE_STAKE_RAISE_MINIMUM_DELEGATION_TO_1_SOL, LAMPORTS_PER_SOL,
    MAXIMUM_SIGNERS,
};
use crate::pubkey::{pubkey_eq, Pubkey};
use crate::state::account_info::{
    lemma_total_lamports_update, same_layout, signer_keys, states, total_lamports, with_data, with_lamports, AccountInfo,
    AccountState,
};
use crate::state::delegation::{Delegation, Stake};
use crate::state::stake_history::StakeActivationStatus;
use crate::state::stake_state_v2::{spec_deserialize, spec_serialize, StakeStateV2};
use crate::state::state::Meta;
use crate::state::vote_state::VoteState;

verus! {

/// Error code for more than `MAXIMUM_SIGNERS` signers.
pub const TOO_MANY_SIGNERS: u32 = 0x1;

/// Lamports of a stake account above its reserve, available to delegate.
pub struct ValidatedDelegatedInfo {
    pub stake_amount: u64,
}

/// Result of checking a split: what stays in the source, and the reserve the
/// destination needs.
#[derive(Clone, Copy, Debug)]
pub struct ValidatedSplitInfo {
    pub source_remaining_balance: u64,
    pub destination_rent_exempt_reserve: u64,
}

/// Codes of the program's own errors.
pub enum ErrorCode {
    TooManySigners,
}

/// The smallest delegation allowed: one lamport, or one SOL once the feature is on.
pub open spec fn spec_minimum_delegation() -> u64 {
    if FEATURE_STAKE_RAISE_MINIMUM_DELEGATION_TO_1_SOL {
        LAMPORTS_PER_SOL
    } else {
        1
    }
}

pub fn get_minimum_delegation() -> (r: u64)
    ensures
        r == spec_minimum_delegation(),
{
    if FEATURE_STAKE_RAISE_MINIMUM_DELEGATION_TO_1_SOL {
        LAMPORTS_PER_SOL
    } else {
        1
    }
}

/// The `u64` whose little-endian bytes are `bytes`.
pub fn bytes_to_u64(bytes: [u8; 8]) -> (r: u64)
    ensures
        r == spec_u64_from_le_bytes(bytes@),
{
    vstd::bytes::u64_from_le_bytes(bytes.as_slice())
}

/// Copies the addresses of the signing accounts, in order, into the front of
/// `array_of_signers` and returns how many there are; `Custom(1)` for more
/// than `MAXIMUM_SIGNERS`.
pub fn collect_signers(accounts: &[AccountInfo], array_of_signers: &mut [Pubkey; MAXIMUM_SIGNERS]) -> (r: Result<usize, ProgramError>)
    ensures
        r is Ok <==> signer_keys(states(accounts@)).len() <= MAXIMUM_SIGNERS,
        r matches Ok(n) ==> {
            &&& n == signer_keys(states(accounts@)).len()
            &&& final(array_of_signers)@.subrange(0, n as int) == signer_keys(states(accounts@))
            &&& forall|j: int| n <= j < MAXIMUM_SIGNERS ==> final(array_of_signers)@[j] == old(array_of_signers)@[j]
        },
        r matches Err(e) ==> e == ProgramError::Custom(TOO_MANY_SIGNERS),
{
    let ghost accs = states(accounts@);
    let mut len_of_signers: usize = 0;
    let mut i: usize = 0;
    while i < accounts.len()
        invariant
            0 <= i <= accounts.len(),
            accs == states(accounts@),
            len_of_signers <= MAXIMUM_SIGNERS,
            len_of_signers == signer_keys(accs.subrange(0, i as int)).len(),
            array_of_signers@.subrange(0, len_of_signers as int) == signer_keys(accs.subrange(0, i as int)),
            forall|j: int| len_of_signers <= j < MAXIMUM_SIGNERS ==> array_of_signers@[j] == old(array_of_signers)@[j],
        decreases accounts.len() - i,
    {
        proof {
            assert(accs.subrange(0, i + 1).drop_last() =~= accs.subrange(0, i as int));
            assert(accs.subrange(0, i + 1).last() == accounts@[i as int]@);
        }
        if accounts[i].is_signer {
            if len_of_signers < MAXIMUM_SIGNERS {
                let ghost before = array_of_signers@;
                array_of_signers[len_of_signers] = accounts[i].key;
                len_of_signers = len_of_signers + 1;
                proof {
                    assert(array_of_signers@.subrange(0, len_of_signers as int) =~= before.subrange(
                        0,
                        len_of_signers - 1,
                    ).push(accounts@[i as int].key));
                }
            } else {
                proof {
                    crate::state::account_info::lemma_signer_keys_prefix(accs, i + 1);
                }
                return Err(ProgramError::Custom(TOO_MANY_SIGNERS));
            }
        }
        i = i + 1;
    }
    proof {
        assert(accs.subrange(0, accounts@.len() as int) =~= accs);
    }
    Ok(len_of_signers)
}

/// The account at `*next`, which then moves on by one;
/// `NotEnoughAccountKeys` once the accounts are used up.
pub fn next_account_info<'a>(accounts: &'a [AccountInfo], next: &mut usize) -> (r: Result<&'a AccountInfo, ProgramError>)
    ensures
        *old(next) < accounts@.len() ==> r == Ok::<&AccountInfo, ProgramError>(&accounts@[*old(next) as int])
            && *final(next) == *old(next) + 1,
        *old(next) >= accounts@.len() ==> r == Err::<&AccountInfo, ProgramError>(ProgramError::NotEnoughAccountKeys)
            && *final(next) == *old(next),
{
    if *next < accounts.len() {
        let i = *next;
        *next = i + 1;
        Ok(&accounts[i])
    } else {
        Err(ProgramError::NotEnoughAccountKeys)
    }
}

/// What loading a stake account's state gives: `InvalidAccountOwner` unless
/// the stake program owns it, else the state its data holds.
pub open spec fn spec_get_stake_state(a: AccountState) -> Result<StakeStateV2, ProgramError> {
    if a.owner != crate::ID {
        Err(ProgramError::InvalidAccountOwner)
    } else {
        spec_deserialize(a.data)
    }
}

/// Loads the state of a stake account.
pub fn get_stake_state(stake_account_info: &AccountInfo) -> (r: Result<StakeStateV2, ProgramError>)
    ensures
        r == spec_get_stake_state(stake_account_info@),
{
    if !pubkey_eq(&stake_account_info.owner, &crate::ID) {
        return Err(ProgramError::InvalidAccountOwner);
    }
    StakeStateV2::deserialize(stake_account_info.data.as_slice())
}

/// What storing `s` into an account gives.
pub open spec fn spec_set_stake_state(a: AccountState, s: StakeStateV2) -> Result<AccountState, ProgramError> {
    match spec_serialize(s, a.data.len()) {
        Ok(d) => Ok(with_data(a, d)),
        Err(e) => Err(e),
    }
}

/// Stores a state into a stake account's data.
pub fn set_stake_state(stake_account_info: &mut AccountInfo, stake_state: &StakeStateV2) -> (r: Result<(), ProgramError>)
    ensures
        match spec_set_stake_state(old(stake_account_info)@, *stake_state) {
            Ok(a) => r is Ok && final(stake_account_info)@ == a,
            Err(e) => r == Err::<(), ProgramError>(e) && final(stake_account_info)@ == old(stake_account_info)@,
        },
{
    stake_state.serialize(&mut stake_account_info.data)
}

/// Stores a state into the account at `index`; the other accounts stay as they are.
pub fn set_stake_state_at(accounts: &mut Vec<AccountInfo>, index: usize, stake_state: &StakeStateV2) -> (r: Result<(), ProgramError>)
    requires
        index < old(accounts)@.len(),
    ensures
        final(accounts)@.len() == old(accounts)@.len(),
        r is Err ==> states(final(accounts)@) == states(old(accounts)@),
        match spec_set_stake_state(old(accounts)@[index as int]@, *stake_state) {
            Ok(a) => r is Ok && states(final(accounts)@) == states(old(accounts)@).update(index as int, a),
            Err(e) => r == Err::<(), ProgramError>(e) && states(final(accounts)@) == states(old(accounts)@),
        },
{
    let ghost before = states(accounts@);
    let r = set_stake_state(&mut accounts[index], stake_state);
    proof {
        match spec_set_stake_state(old(accounts)@[index as int]@, *stake_state) {
            Ok(a) => {
                assert(states(accounts@) =~= before.update(index as int, a));
            },
            Err(e) => {
                assert(states(accounts@) =~= before);
            },
        }
    }
    r
}

/// Lamports above the reserve; `InsufficientFunds` where the balance is below it.
pub fn validate_delegated_amount(stake_account_info: &AccountInfo, meta: &Meta) -> (r: Result<ValidatedDelegatedInfo, ProgramError>)
    ensures
        stake_account_info.lamports >= meta.rent_exempt_reserve ==> (r matches Ok(info) && info.stake_amount
            == stake_account_info.lamports - meta.rent_exempt_reserve),
        stake_account_info.lamports < meta.rent_exempt_reserve ==> r == Err::<ValidatedDelegatedInfo, ProgramError>(ProgramError::InsufficientFunds),
{
    match stake_account_info.lamports.checked_sub(meta.rent_exempt_reserve) {
        Some(stake_amount) => Ok(ValidatedDelegatedInfo { stake_amount }),
        None => Err(crate::error::to_program_error(StakeError::InsufficientFunds)),
    }
}

/// The stake of a fresh delegation.
pub open spec fn spec_new_stake(stake_amount: u64, vote_pubkey: Pubkey, credits: u64, activation_epoch: u64) -> Stake {
    Stake {
        delegation: Delegation {
            voter_pubkey: vote_pubkey,
            stake: stake_amount,
            activation_epoch: activation_epoch,
            deactivation_epoch: u64::MAX,
            warmup_cooldown_rate: DEFAULT_WARMUP_COOLDOWN_RATE_BITS,
        },
        credits_observed: credits,
    }
}

/// A fresh delegation of `stake_amount` to the vote account, from `activation_epoch`.
pub fn new_stake(stake_amount: u64, vote_pubkey: &Pubkey, vote_state: &VoteState, activation_epoch: u64) -> (r: Stake)
    ensures
        r == spec_new_stake(stake_amount, *vote_pubkey, vote_state.credits, activation_epoch),
{
    new_stake_with_credits(stake_amount, vote_pubkey, activation_epoch, vote_state.credits())
}

/// A fresh delegation of `stake_amount` to the vote account, from `activation_epoch`, observing `credits`.
pub fn new_stake_with_credits(stake_amount: u64, vote_pubkey: &Pubkey, activation_epoch: u64, credits: u64) -> (r: Stake)
    ensures
        r == spec_new_stake(stake_amount, *vote_pubkey, credits, activation_epoch),
{
    Stake { delegation: Delegation::new(vote_pubkey, stake_amount, activation_epoch), credits_observed: credits }
}

/// What delegating an already delegated stake again gives, `status` being the
/// activation status of its delegation at `clock_epoch`. While the stake
/// still has effective stake it may only have its deactivation rescinded: in
/// the epoch it was deactivated, to the same vote account, the deactivation
/// epoch is cleared; anything else is `TooSoonToRedelegate`. A stake without
/// effective stake is delegated afresh: new vote account, amount, activation
/// epoch and credits, and no deactivation.
pub open spec fn spec_redelegate(
    stake: Stake,
    stake_amount: u64,
    vote_pubkey: Pubkey,
    credits: u64,
    clock_epoch: u64,
    status: StakeActivationStatus,
) -> Result<Stake, ProgramError> {
    if status.effective != 0 {
        if stake.delegation.voter_pubkey == vote_pubkey && clock_epoch == stake.delegation.deactivation_epoch {
            Ok(Stake { delegation: Delegation { deactivation_epoch: u64::MAX, ..stake.delegation }, ..stake })
        } else {
            Err(spec_to_program_error(StakeError::TooSoonToRedelegate))
        }
    } else {
        Ok(Stake {
            delegation: Delegation {
                voter_pubkey: vote_pubkey,
                stake: stake_amount,
                activation_epoch: clock_epoch,
                deactivation_epoch: u64::MAX,
                ..stake.delegation
            },
            credits_observed: credits,
        })
    }
}

/// Points an existing stake at a vote account again, `status` being the
/// activation status of its delegation at `clock_epoch`.
pub fn redelegate_stake(
    stake: &mut Stake,
    stake_amount: u64,
    vote_pubkey: &Pubkey,
    vote_state: &VoteState,
    clock_epoch: u64,
    status: &StakeActivationStatus,
) -> (r: Result<(), ProgramError>)
    ensures
        match spec_redelegate(*old(stake), stake_amount, *vote_pubkey, vote_state.credits, clock_epoch, *status) {
            Ok(s) => r is Ok && *final(stake) == s,
            Err(e) => r == Err::<(), ProgramError>(e) && *final(stake) == *old(stake),
        },
{
    redelegate_stake_with_credits(stake, stake_amount, vote_pubkey, vote_state.credits(), clock_epoch, status)
}

/// Points an existing stake at a vote account again, observing `credits`,
/// `status` being the activation status of its delegation at `clock_epoch`.
pub fn redelegate_stake_with_credits(
    stake: &mut Stake,
    stake_amount: u64,
    vote_pubkey: &Pubkey,
    credits: u64,
    clock_epoch: u64,
    status: &StakeActivationStatus,
) -> (r: Result<(), ProgramError>)
    ensures
        match spec_redelegate(*old(stake), stake_amount, *vote_pubkey, credits, clock_epoch, *status) {
            Ok(s) => r is Ok && *final(stake) == s,
            Err(e) => r == Err::<(), ProgramError>(e) && *final(stake) == *old(stake),
        },
{
    if status.effective != 0 {
        if pubkey_eq(&stake.delegation.voter_pubkey, vote_pubkey) && clock_epoch == stake.delegation.deactivation_epoch {
            stake.delegation.deactivation_epoch = u64::MAX;
            return Ok(());
        }
        return Err(to_program_error(StakeError::TooSoonToRedelegate));
    }
    stake.delegation.voter_pubkey = *vote_pubkey;
    stake.delegation.stake = stake_amount;
    stake.delegation.activation_epoch = clock_epoch;
    stake.delegation.deactivation_epoch = u64::MAX;
    stake.credits_observed = credits;
    Ok(())
}

/// What moving `lamports` from account `source` to account `destination`
/// gives: the source must hold them, and the destination's balance must not
/// overflow.
pub open spec fn spec_relocate(accs: Seq<AccountState>, source: int, destination: int, lamports: u64) -> Result<Seq<AccountState>, ProgramError> {
    if accs[source].lamports < lamports {
        Err(ProgramError::InsufficientFunds)
    } else {
        let taken = accs.update(source, with_lamports(accs[source], (accs[source].lamports - lamports) as u64));
        if taken[destination].lamports + lamports > u64::MAX {
            Err(ProgramError::ArithmeticOverflow)
        } else {
            Ok(taken.update(destination, with_lamports(taken[destination], (taken[destination].lamports + lamports) as u64)))
        }
    }
}

/// Moving lamports between two accounts keeps the total: the source loses
/// them, the destination gains them (where the two differ), and nothing
/// else changes.
pub proof fn lemma_relocate_conserves(accs: Seq<AccountState>, source: int, destination: int, lamports: u64)
    requires
        0 <= source < accs.len(),
        0 <= destination < accs.len(),
        spec_relocate(accs, source, destination, lamports) is Ok,
    ensures
        spec_relocate(accs, source, destination, lamports) matches Ok(t) && {
            &&& t.len() == accs.len()
            &&& total_lamports(t) == total_lamports(accs)
            &&& same_layout(accs, t)
            &&& forall|j: int| 0 <= j < accs.len() ==> #[trigger] t[j] == with_lamports(accs[j], t[j].lamports)
            &&& forall|j: int| 0 <= j < accs.len() && j != source && j != destination ==> #[trigger] t[j] == accs[j]
            &&& source != destination ==> t[source].lamports == accs[source].lamports - lamports
                && t[destination].lamports == accs[destination].lamports + lamports
            &&& source == destination ==> t[source].lamports == accs[source].lamports
        },
{
    let taken = accs.update(source, with_lamports(accs[source], (accs[source].lamports - lamports) as u64));
    lemma_total_lamports_update(accs, source, with_lamports(accs[source], (accs[source].lamports - lamports) as u64));
    let t = taken.update(destination, with_lamports(taken[destination], (taken[destination].lamports + lamports) as u64));
    lemma_total_lamports_update(taken, destination, with_lamports(taken[destination], (taken[destination].lamports + lamports) as u64));
    assert(spec_relocate(accs, source, destination, lamports) == Ok::<Seq<AccountState>, ProgramError>(t));
}

/// Moves lamports between two accounts of the instruction.
pub fn relocate_lamports(accounts: &mut Vec<AccountInfo>, source: usize, destination: usize, lamports: u64) -> (r: Result<(), ProgramError>)
    requires
        source < old(accounts)@.len(),
        destination < old(accounts)@.len(),
    ensures
        final(accounts)@.len() == old(accounts)@.len(),
        r is Err ==> states(final(accounts)@) == states(old(accounts)@),
        match spec_relocate(states(old(accounts)@), source as int, destination as int, lamports) {
            Ok(s) => r is Ok && states(final(accounts)@) == s,
            Err(e) => r == Err::<(), ProgramError>(e),
        },
{
    let ghost before = states(accounts@);
    if accounts[source].lamports < lamports {
        return Err(ProgramError::InsufficientFunds);
    }
    if source != destination && accounts[destination].lamports.checked_add(lamports).is_none() {
        return Err(ProgramError::ArithmeticOverflow);
    }
    accounts[source].lamports = accounts[source].lamports - lamports;
    let ghost taken = states(accounts@);
    proof {
        assert(taken =~= before.update(source as int, with_lamports(before[source as int], (before[source as int].lamports - lamports) as u64)));
    }
    match accounts[destination].lamports.checked_add(lamports) {
        Some(v) => {
            accounts[destination].lamports = v;
            proof {
                assert(states(accounts@) =~= taken.update(destination as int, with_lamports(taken[destination as int], v)));
            }
            Ok(())
        },
        None => Err(ProgramError::ArithmeticOverflow),
    }
}

/// The vote state that vote account data holds: node (32 bytes), voter (32
/// bytes), commission byte, padding to 72, credits as a little-endian `u64`.
pub open spec fn spec_vote_state_of(data: Seq<u8>) -> VoteState {
    VoteState {
        node_pubkey: pubkey_of(data.subrange(0, 32)),
        authorized_voter: pubkey_of(data.subrange(32, 64)),
        commission: data[64],
        credits: le_u64_at(data, 72),
    }
}

/// Reads the vote state of a vote account; `InvalidAccountData` for fewer than 80 bytes.
pub fn get_vote_state(vote_account_info: &AccountInfo) -> (r: Result<VoteState, ProgramError>)
    ensures
        r is Ok <==> vote_account_info.data@.len() >= 80,
        r matches Ok(v) ==> v == spec_vote_state_of(vote_account_info.data@),
        r matches Err(e) ==> e == ProgramError::InvalidAccountData,
{
    let data = vote_account_info.data.as_slice();
    if data.len() < 80 {
        return Err(ProgramError::InvalidAccountData);
    }
    Ok(VoteState {
        node_pubkey: read_pubkey(data, 0),
        authorized_voter: read_pubkey(data, 32),
        commission: data[64],
        credits: read_u64_le(data, 72),
    })
}

/// The credits of a vote account.
pub fn get_vote_credits(vote_account_info: &AccountInfo) -> (r: Result<u64, ProgramError>)
    ensures
        r is Ok <==> vote_account_info.data@.len() >= 80,
        r matches Ok(c) ==> c == spec_vote_state_of(vote_account_info.data@).credits,
        r matches Err(e) ==> e == ProgramError::InvalidAccountData,
{
    let v = get_vote_state(vote_account_info)?;
    Ok(v.credits())
}

/// What checking a split gives. The amount must be positive and at most the
/// source balance; what stays must be zero or cover the source's reserve
/// plus `additional_required_lamports`; an active source that keeps lamports
/// needs a rent-exempt destination; and the amount must make up what the
/// destination lacks of its reserve plus `additional_required_lamports`.
pub open spec fn spec_validate_split_amount(
    source_lamports: u64,
    destination_lamports: u64,
    split_lamports: u64,
    source_rent_exempt_reserve: u64,
    destination_rent_exempt_reserve: u64,
    additional_required_lamports: u64,
    source_is_active: bool,
) -> Result<ValidatedSplitInfo, ProgramError> {
    let source_minimum_balance = sat_add(source_rent_exempt_reserve, additional_required_lamports);
    let source_remaining_balance = sat_sub(source_lamports, split_lamports);
    let destination_minimum_balance = sat_add(destination_rent_exempt_reserve, additional_required_lamports);
    let destination_balance_deficit = sat_sub(destination_minimum_balance, destination_lamports);
    if split_lamports == 0 || split_lamports > source_lamports {
        Err(ProgramError::InsufficientFunds)
    } else if source_remaining_balance != 0 && source_remaining_balance < source_minimum_balance {
        Err(ProgramError::InsufficientFunds)
    } else if source_is_active && source_remaining_balance != 0 && destination_lamports < destination_rent_exempt_reserve {
        Err(ProgramError::InsufficientFunds)
    } else if split_lamports < destination_balance_deficit {
        Err(ProgramError::InsufficientFunds)
    } else {
        Ok(ValidatedSplitInfo { source_remaining_balance, destination_rent_exempt_reserve })
    }
}

/// `a + b` saturated at `u64::MAX`.
pub open spec fn sat_add(a: u64, b: u64) -> u64 {
    if a + b > u64::MAX { u64::MAX } else { (a + b) as u64 }
}

/// `a - b` saturated at zero.
pub open spec fn sat_sub(a: u64, b: u64) -> u64 {
    if a < b { 0 } else { (a - b) as u64 }
}

/// Checks a split of `split_lamports` from a source to a destination account,
/// `destination_rent_exempt_reserve` being what the rent sysvar asks for the
/// destination's size.
pub fn validate_split_amount(
    source_lamports: u64,
    destination_lamports: u64,
    split_lamports: u64,
    source_meta: &Meta,
    destination_rent_exempt_reserve: u64,
    additional_required_lamports: u64,
    source_is_active: bool,
) -> (r: Result<ValidatedSplitInfo, ProgramError>)
    ensures
        r == spec_validate_split_amount(
            source_lamports,
            destination_lamports,
            split_lamports,
            source_meta.rent_exempt_reserve,
            destination_rent_exempt_reserve,
            additional_required_lamports,
            source_is_active,
        ),
{
    if split_lamports == 0 {
        return Err(ProgramError::InsufficientFunds);
    }
    if split_lamports > source_lamports {
        return Err(ProgramError::InsufficientFunds);
    }
    let source_minimum_balance = source_meta.rent_exempt_reserve.saturating_add(additional_required_lamports);
    let source_remaining_balance = source_lamports.saturating_sub(split_lamports);
    if source_remaining_balance != 0 && source_remaining_balance < source_minimum_balance {
        return Err(ProgramError::InsufficientFunds);
    }
    if source_is_active && source_remaining_balance != 0 && destination_lamports < destination_rent_exempt_reserve {
        return Err(ProgramError::InsufficientFunds);
    }
    let destination_minimum_balance = destination_rent_exempt_reserve.saturating_add(additional_required_lamports);
    let destination_balance_deficit = destination_minimum_balance.saturating_sub(destination_lamports);
    if split_lamports < destination_balance_deficit {
        return Err(ProgramError::InsufficientFunds);
    }
    Ok(ValidatedSplitInfo { source_remaining_balance, destination_rent_exempt_reserve })
}

} // verus!
