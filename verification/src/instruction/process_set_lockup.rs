//! `SetLockup`: change the lockup of a stake account.
use vstd::prelude::*;

use crate::error::ProgramError;
use crate::helpers::utils::{get_stake_state, set_stake_state_at, spec_get_stake_state};
use crate::instruction::{collect_signer_keys, lemma_store_keeps_lamports, spec_signers, spec_store};
use crate::pubkey::{contains_pubkey, pubkey_eq, Pubkey};
use crate::state::account_info::{
    same_layout, states, total_lamports, AccountInfo, AccountState,
};
use crate::state::accounts::{set_lockup_payload_ok, spec_set_lockup_args, SetLockupData};
use crate::state::stake_state_v2::{spec_deserialize, StakeStateV2};
use crate::state::state::{spec_lockup_in_force, Lockup, Meta};
use crate::sysvars::Clock;

verus! {

/// What changing a lockup gives. While the current lockup is in force the
/// custodian must sign, otherwise the withdrawer; then each given field
/// replaces the current one.
pub open spec fn spec_set_lockup_policy(
    meta: Meta,
    unix_timestamp: Option<i64>,
    epoch: Option<u64>,
    custodian: Option<Pubkey>,
    signers: Seq<Pubkey>,
    clock: Clock,
) -> Result<Meta, ProgramError> {
    let required = if spec_lockup_in_force(meta.lockup, clock, None) {
        meta.lockup.custodian
    } else {
        meta.authorized.withdrawer
    };
    if !signers.contains(required) {
        Err(ProgramError::MissingRequiredSignature)
    } else {
        Ok(Meta {
            lockup: Lockup {
                unix_timestamp: match unix_timestamp {
                    Some(t) => t,
                    None => meta.lockup.unix_timestamp,
                },
                epoch: match epoch {
                    Some(e) => e,
                    None => meta.lockup.epoch,
                },
                custodian: match custodian {
                    Some(c) => c,
                    None => meta.lockup.custodian,
                },
            },
            ..meta
        })
    }
}

/// Changes the lockup of `meta` as `spec_set_lockup_policy` says.
pub fn apply_set_lockup_policy(
    meta: &mut Meta,
    unix_ts: Option<i64>,
    epoch: Option<u64>,
    custodian_update: Option<Pubkey>,
    signers: &[Pubkey],
    clock: &Clock,
) -> (r: Result<(), ProgramError>)
    ensures
        match spec_set_lockup_policy(*old(meta), unix_ts, epoch, custodian_update, signers@, *clock) {
            Ok(m) => r is Ok && *final(meta) == m,
            Err(e) => r == Err::<(), ProgramError>(e) && *final(meta) == *old(meta),
        },
{
    if meta.lockup.is_in_force(clock, None) {
        if !contains_pubkey(signers, &meta.lockup.custodian) {
            return Err(ProgramError::MissingRequiredSignature);
        }
    } else {
        if !contains_pubkey(signers, &meta.authorized.withdrawer) {
            return Err(ProgramError::MissingRequiredSignature);
        }
    }
    if let Some(ts) = unix_ts {
        meta.lockup.unix_timestamp = ts;
    }
    if let Some(ep) = epoch {
        meta.lockup.epoch = ep;
    }
    if let Some(c) = custodian_update {
        meta.lockup.custodian = c;
    }
    Ok(())
}

/// Changes the lockup of `meta` by the fields that `args` gives.
pub fn apply_lockup_update(meta: &mut Meta, args: &SetLockupData, clock: &Clock, signers: &[Pubkey]) -> (r: Result<(), ProgramError>)
    ensures
        match spec_set_lockup_policy(*old(meta), args.unix_timestamp, args.epoch, args.custodian, signers@, *clock) {
            Ok(m) => r is Ok && *final(meta) == m,
            Err(e) => r == Err::<(), ProgramError>(e) && *final(meta) == *old(meta),
        },
{
    apply_set_lockup_policy(meta, args.unix_timestamp, args.epoch, args.custodian, signers, clock)
}

/// What applying a lockup change to the stake account (account 0) gives: its
/// state must be initialized or delegated.
pub open spec fn spec_lockup_change(
    accs: Seq<AccountState>,
    unix_timestamp: Option<i64>,
    epoch: Option<u64>,
    custodian: Option<Pubkey>,
    signers: Seq<Pubkey>,
    clock: Clock,
) -> Result<Seq<AccountState>, ProgramError> {
    match spec_get_stake_state(accs[0]) {
        Err(e) => Err(e),
        Ok(StakeStateV2::Initialized(meta)) => match spec_set_lockup_policy(meta, unix_timestamp, epoch, custodian, signers, clock) {
            Ok(m) => spec_store(accs, 0, StakeStateV2::Initialized(m)),
            Err(e) => Err(e),
        },
        Ok(StakeStateV2::Stake(meta, stake, flags)) => match spec_set_lockup_policy(meta, unix_timestamp, epoch, custodian, signers, clock) {
            Ok(m) => spec_store(accs, 0, StakeStateV2::Stake(m, stake, flags)),
            Err(e) => Err(e),
        },
        Ok(_) => Err(ProgramError::InvalidAccountData),
    }
}

/// A lockup change rewrites only the stake account's data: no balance
/// changes and the other accounts stay.
pub proof fn lemma_lockup_change_keeps_balances(
    accs: Seq<AccountState>,
    unix_timestamp: Option<i64>,
    epoch: Option<u64>,
    custodian: Option<Pubkey>,
    signers: Seq<Pubkey>,
    clock: Clock,
)
    requires
        accs.len() >= 1,
        spec_lockup_change(accs, unix_timestamp, epoch, custodian, signers, clock) is Ok,
    ensures
        spec_lockup_change(accs, unix_timestamp, epoch, custodian, signers, clock) matches Ok(t) && {
            &&& t.len() == accs.len()
            &&& total_lamports(t) == total_lamports(accs)
            &&& same_layout(accs, t)
            &&& t[0].lamports == accs[0].lamports
            &&& forall|j: int| 1 <= j < accs.len() ==> #[trigger] t[j] == accs[j]
        },
{
    match spec_get_stake_state(accs[0])->Ok_0 {
        StakeStateV2::Initialized(meta) => {
            let m = spec_set_lockup_policy(meta, unix_timestamp, epoch, custodian, signers, clock)->Ok_0;
            lemma_store_keeps_lamports(accs, 0, StakeStateV2::Initialized(m));
        },
        StakeStateV2::Stake(meta, stake, flags) => {
            let m = spec_set_lockup_policy(meta, unix_timestamp, epoch, custodian, signers, clock)->Ok_0;
            lemma_store_keeps_lamports(accs, 0, StakeStateV2::Stake(m, stake, flags));
        },
        _ => {},
    }
}

/// The lockup of `m` with each given field replacing the current one.
pub open spec fn lockup_with(m: Meta, unix_timestamp: Option<i64>, epoch: Option<u64>, custodian: Option<Pubkey>) -> Lockup {
    Lockup {
        unix_timestamp: if unix_timestamp is Some { unix_timestamp->0 } else { m.lockup.unix_timestamp },
        epoch: if epoch is Some { epoch->0 } else { m.lockup.epoch },
        custodian: if custodian is Some { custodian->0 } else { m.lockup.custodian },
    }
}

/// A lockup change that succeeds was signed by the custodian while the lockup
/// was in force, else by the withdrawer, and stores the same kind of state
/// with only the metadata's lockup changed: each given field replaces the
/// current one, the authorities and reserve stay, and a delegated account
/// keeps its stake and flags.
pub proof fn lemma_lockup_change_sets_given_fields(
    accs: Seq<AccountState>,
    unix_timestamp: Option<i64>,
    epoch: Option<u64>,
    custodian: Option<Pubkey>,
    signers: Seq<Pubkey>,
    clock: Clock,
)
    requires
        accs.len() >= 1,
        spec_lockup_change(accs, unix_timestamp, epoch, custodian, signers, clock) is Ok,
    ensures
        spec_lockup_change(accs, unix_timestamp, epoch, custodian, signers, clock) matches Ok(t) && match spec_get_stake_state(accs[0]) {
            Ok(StakeStateV2::Initialized(m)) => {
                &&& signers.contains(if spec_lockup_in_force(m.lockup, clock, None) { m.lockup.custodian } else { m.authorized.withdrawer })
                &&& spec_deserialize(t[0].data) == Ok::<StakeStateV2, ProgramError>(
                    StakeStateV2::Initialized(Meta { lockup: lockup_with(m, unix_timestamp, epoch, custodian), ..m }),
                )
            },
            Ok(StakeStateV2::Stake(m, stake, flags)) => {
                &&& signers.contains(if spec_lockup_in_force(m.lockup, clock, None) { m.lockup.custodian } else { m.authorized.withdrawer })
                &&& spec_deserialize(t[0].data) == Ok::<StakeStateV2, ProgramError>(
                    StakeStateV2::Stake(Meta { lockup: lockup_with(m, unix_timestamp, epoch, custodian), ..m }, stake, flags),
                )
            },
            _ => false,
        },
{
    match spec_get_stake_state(accs[0])->Ok_0 {
        StakeStateV2::Initialized(meta) => {
            let m = spec_set_lockup_policy(meta, unix_timestamp, epoch, custodian, signers, clock)->Ok_0;
            lemma_store_keeps_lamports(accs, 0, StakeStateV2::Initialized(m));
        },
        StakeStateV2::Stake(meta, stake, flags) => {
            let m = spec_set_lockup_policy(meta, unix_timestamp, epoch, custodian, signers, clock)->Ok_0;
            lemma_store_keeps_lamports(accs, 0, StakeStateV2::Stake(m, stake, flags));
        },
        _ => {},
    }
}

/// Applies a lockup change to the stake account (account 0).
pub fn change_lockup(
    accounts: &mut Vec<AccountInfo>,
    unix_timestamp: Option<i64>,
    epoch: Option<u64>,
    custodian: Option<Pubkey>,
    signers: &[Pubkey],
    clock: &Clock,
) -> (r: Result<(), ProgramError>)
    requires
        old(accounts)@.len() >= 1,
    ensures
        final(accounts)@.len() == old(accounts)@.len(),
        r is Err ==> states(final(accounts)@) == states(old(accounts)@),
        match spec_lockup_change(states(old(accounts)@), unix_timestamp, epoch, custodian, signers@, *clock) {
            Ok(s) => r is Ok && states(final(accounts)@) == s,
            Err(e) => r == Err::<(), ProgramError>(e),
        },
{
    let state = get_stake_state(&accounts[0])?;
    let new_state = match state {
        StakeStateV2::Initialized(meta) => {
            let mut meta = meta;
            apply_set_lockup_policy(&mut meta, unix_timestamp, epoch, custodian, signers, clock)?;
            StakeStateV2::Initialized(meta)
        },
        StakeStateV2::Stake(meta, stake, flags) => {
            let mut meta = meta;
            apply_set_lockup_policy(&mut meta, unix_timestamp, epoch, custodian, signers, clock)?;
            StakeStateV2::Stake(meta, stake, flags)
        },
        _ => return Err(ProgramError::InvalidAccountData),
    };
    set_stake_state_at(accounts, 0, &new_state)
}

/// What `SetLockup` gives with already parsed arguments. Accounts: the stake
/// account (owned by the program, writable) and any signers.
pub open spec fn spec_process_set_lockup_parsed(accs: Seq<AccountState>, args: SetLockupData, clock: Clock) -> Result<Seq<AccountState>, ProgramError> {
    if accs.len() < 1 {
        Err(ProgramError::NotEnoughAccountKeys)
    } else if accs[0].owner != crate::ID || !accs[0].is_writable {
        Err(ProgramError::InvalidAccountData)
    } else {
        match spec_signers(accs) {
            Err(e) => Err(e),
            Ok(signers) => spec_lockup_change(accs, args.unix_timestamp, args.epoch, args.custodian, signers, clock),
        }
    }
}

/// `SetLockup` with already parsed arguments, at `clock`.
pub fn process_set_lockup_parsed(accounts: &mut Vec<AccountInfo>, args: SetLockupData, clock: &Clock) -> (r: Result<(), ProgramError>)
    ensures
        final(accounts)@.len() == old(accounts)@.len(),
        r is Err ==> states(final(accounts)@) == states(old(accounts)@),
        match spec_process_set_lockup_parsed(states(old(accounts)@), args, *clock) {
            Ok(s) => r is Ok && states(final(accounts)@) == s,
            Err(e) => r == Err::<(), ProgramError>(e),
        },
{
    if accounts.len() < 1 {
        return Err(ProgramError::NotEnoughAccountKeys);
    }
    if !pubkey_eq(&accounts[0].owner, &crate::ID) || !accounts[0].is_writable {
        return Err(ProgramError::InvalidAccountData);
    }
    let signers = collect_signer_keys(accounts)?;
    change_lockup(accounts, args.unix_timestamp, args.epoch, args.custodian, signers.as_slice(), clock)
}

/// What `SetLockup` gives: as with parsed arguments, except that a malformed
/// payload is `InvalidInstructionData`, checked after the stake account.
pub open spec fn spec_process_set_lockup(accs: Seq<AccountState>, instruction_data: Seq<u8>, clock: Clock) -> Result<Seq<AccountState>, ProgramError> {
    if accs.len() < 1 {
        Err(ProgramError::NotEnoughAccountKeys)
    } else if accs[0].owner != crate::ID || !accs[0].is_writable {
        Err(ProgramError::InvalidAccountData)
    } else if !set_lockup_payload_ok(instruction_data) {
        Err(ProgramError::InvalidInstructionData)
    } else {
        spec_process_set_lockup_parsed(accs, spec_set_lockup_args(instruction_data), clock)
    }
}

/// `SetLockup` at `clock`, with its payload still encoded.
pub fn process_set_lockup(accounts: &mut Vec<AccountInfo>, instruction_data: &[u8], clock: &Clock) -> (r: Result<(), ProgramError>)
    ensures
        final(accounts)@.len() == old(accounts)@.len(),
        r is Err ==> states(final(accounts)@) == states(old(accounts)@),
        match spec_process_set_lockup(states(old(accounts)@), instruction_data@, *clock) {
            Ok(s) => r is Ok && states(final(accounts)@) == s,
            Err(e) => r == Err::<(), ProgramError>(e),
        },
{
    if accounts.len() < 1 {
        return Err(ProgramError::NotEnoughAccountKeys);
    }
    if !pubkey_eq(&accounts[0].owner, &crate::ID) || !accounts[0].is_writable {
        return Err(ProgramError::InvalidAccountData);
    }
    let args = SetLockupData::instruction_data(instruction_data)?;
    process_set_lockup_parsed(accounts, args, clock)
}

} // verus!
