//! The program's entry: the instruction set as values, and the dispatch of
//! an instruction, whether given as a decoded value or as a discriminant
//! byte with its payload, to its handler.
use vstd::prelude::*;

use crate::bytes::{
    le_bytes, le_bytes_i64, le_u64_at, lemma_i64_roundtrip, lemma_le_roundtrip, pubkey_of, read_pubkey, read_u64_le,
};
use crate::error::ProgramError;
use crate::helpers::utils::{get_minimum_delegation, spec_get_stake_state, spec_minimum_delegation};
use crate::instruction::authorize::{lemma_authorize_sets_only_named, process_authorize, spec_process_authorize};
use crate::instruction::authorize_checked::{process_authorize_checked, spec_process_authorize_checked};
use crate::instruction::deactivate::{lemma_deactivate_records_epoch, process_deactivate, spec_process_deactivate};
use crate::instruction::deactivate_delinquent::{
    lemma_deactivate_delinquent_keeps_balances, process_deactivate_delinquent, spec_process_deactivate_delinquent,
};
use crate::instruction::initialize::{
    initialize, lemma_initialize_keeps_balances, spec_do_initialize, spec_initialize,
};
use crate::instruction::initialize_checked::{process_initialize_checked, spec_process_initialize_checked};
use crate::instruction::merge_dedicated::{lemma_merge_moves_all_lamports, process_merge, spec_process_merge};
use crate::instruction::move_lamports::{lemma_move_lamports_moves_exactly, process_move_lamports, spec_process_move_lamports};
use crate::instruction::process_authorize_checked_with_seed::{
    process_authorize_checked_with_seed, spec_process_authorize_checked_with_seed, spec_with_derived,
};
use crate::instruction::process_authorized_with_seeds::{process_authorized_with_seeds, spec_process_authorized_with_seeds};
use crate::instruction::process_delegate::{lemma_delegate_stakes_balance_above_reserve, process_delegate, spec_delegate};
use crate::instruction::process_move_stake::{lemma_move_stake_moves_exactly, process_move_stake, spec_process_move_stake};
use crate::instruction::process_set_lockup::{
    lemma_lockup_change_keeps_balances, process_set_lockup, process_set_lockup_parsed, spec_process_set_lockup,
    spec_process_set_lockup_parsed,
};
use crate::instruction::process_set_lockup_checked::{
    process_set_lockup_checked, process_set_lockup_checked_parsed, spec_parse_lockup_checked,
    spec_process_set_lockup_checked, spec_set_lockup_checked_parsed, LockupCheckedData,
};
use crate::instruction::split::{lemma_split_moves_exactly, process_split, spec_process_split};
use crate::instruction::withdraw::{lemma_withdraw_moves_exactly, process_withdraw, spec_process_withdraw};
use crate::instruction::{
    account_at, lemma_authorize_stake_sets_only_named, spec_instruction_of, spec_signers,
    StakeInstruction as InstructionKind,
};
use crate::pubkey::{pubkey_eq, Pubkey, DEFAULT_PUBKEY};
use crate::state::account_info::{
    lemma_total_lamports_update, same_layout, states, total_lamports, AccountInfo, AccountState,
};
use crate::state::accounts::{
    lemma_set_lockup_payload_roundtrip, role_of, set_lockup_payload, spec_role_of, spec_set_lockup_args, AuthorizeCheckedWithSeedData, AuthorizeWithSeedData, Authorized,
    SetLockupData, StakeAuthorize,
};
use crate::state::stake_history::StakeActivationStatus;
use crate::state::stake_state_v2::StakeStateV2;
use crate::state::state::{Lockup, Meta};
use crate::sysvars::{spec_clock_from_account, Clock};

verus! {

/// Arguments of `SetLockup`: each lockup field to set, if present.
#[derive(Clone, Copy, Debug)]
pub struct LockupArgs {
    pub unix_timestamp: Option<i64>,
    pub epoch: Option<u64>,
    pub custodian: Option<Pubkey>,
}

/// Arguments of `SetLockupChecked`: time and epoch to set, if present.
#[derive(Clone, Copy, Debug)]
pub struct LockupCheckedArgs {
    pub unix_timestamp: Option<i64>,
    pub epoch: Option<u64>,
}

/// Arguments of `AuthorizeWithSeed`.
#[derive(Debug)]
pub struct AuthorizeWithSeedArgs {
    pub new_authorized_pubkey: Pubkey,
    pub stake_authorize: StakeAuthorize,
    pub authority_seed: String,
    pub authority_owner: Pubkey,
}

/// Arguments of `AuthorizeCheckedWithSeed`.
#[derive(Debug)]
pub struct AuthorizeCheckedWithSeedArgs {
    pub stake_authorize: StakeAuthorize,
    pub authority_seed: String,
    pub authority_owner: Pubkey,
}

/// A decoded instruction with its arguments.
#[derive(Debug)]
pub enum StakeInstruction {
    Initialize(Authorized, Lockup),
    Authorize(Pubkey, StakeAuthorize),
    DelegateStake,
    Split(u64),
    Withdraw(u64),
    Deactivate,
    SetLockup(LockupArgs),
    Merge,
    AuthorizeWithSeed(AuthorizeWithSeedArgs),
    InitializeChecked,
    AuthorizeChecked(StakeAuthorize),
    AuthorizeCheckedWithSeed(AuthorizeCheckedWithSeedArgs),
    SetLockupChecked(LockupCheckedArgs),
    GetMinimumDelegation,
    DeactivateDelinquent,
    Redelegate,
    MoveStake(u64),
    MoveLamports(u64),
}

/// What the runtime supplies beside the accounts and the instruction data:
/// the clock sysvar; the rent-exempt reserve of the account an instruction
/// sets up (for `Initialize` and `InitializeChecked`, what the rent sysvar
/// passed as the second account asks for a stake account's 194 bytes; for
/// `Split`, what the rent sysvar asks for the destination's size); the
/// activation status, at the clock's epoch, of the delegation that each of
/// the first two accounts holds (zero where an account holds none); and, for
/// `AuthorizeCheckedWithSeed`, the
/// address derived from the second account's key with the instruction's seed
/// for its seed owner (or the error that deriving it gave).
#[derive(Clone, Copy, Debug)]
pub struct InvokeContext {
    pub clock: Clock,
    pub rent_exempt_reserve: u64,
    pub first_status: StakeActivationStatus,
    pub second_status: StakeActivationStatus,
    pub seed_address: Result<Pubkey, ProgramError>,
}

/// Which instruction a decoded instruction is.
pub open spec fn kind_of(ix: StakeInstruction) -> InstructionKind {
    match ix {
        StakeInstruction::Initialize(..) => InstructionKind::Initialize,
        StakeInstruction::Authorize(..) => InstructionKind::Authorize,
        StakeInstruction::DelegateStake => InstructionKind::DelegateStake,
        StakeInstruction::Split(..) => InstructionKind::Split,
        StakeInstruction::Withdraw(..) => InstructionKind::Withdraw,
        StakeInstruction::Deactivate => InstructionKind::Deactivate,
        StakeInstruction::SetLockup(..) => InstructionKind::SetLockup,
        StakeInstruction::Merge => InstructionKind::Merge,
        StakeInstruction::AuthorizeWithSeed(..) => InstructionKind::AuthorizeWithSeed,
        StakeInstruction::InitializeChecked => InstructionKind::InitializeChecked,
        StakeInstruction::AuthorizeChecked(..) => InstructionKind::AuthorizeChecked,
        StakeInstruction::AuthorizeCheckedWithSeed(..) => InstructionKind::AuthorizeCheckedWithSeed,
        StakeInstruction::SetLockupChecked(..) => InstructionKind::SetLockupChecked,
        StakeInstruction::GetMinimumDelegation => InstructionKind::GetMinimumDelegation,
        StakeInstruction::DeactivateDelinquent => InstructionKind::DeactivateDelinquent,
        StakeInstruction::Redelegate => InstructionKind::Redelegate,
        StakeInstruction::MoveStake(..) => InstructionKind::MoveStake,
        StakeInstruction::MoveLamports(..) => InstructionKind::MoveLamports,
    }
}

/// A handler's outcome with no return data.
pub open spec fn without_return(r: Result<Seq<AccountState>, ProgramError>) -> Result<(Seq<AccountState>, Option<u64>), ProgramError> {
    match r {
        Ok(s) => Ok((s, None)),
        Err(e) => Err(e),
    }
}

/// The `SetLockup` payload that `args` stands for.
pub open spec fn set_lockup_data_of(args: LockupArgs) -> SetLockupData {
    SetLockupData { unix_timestamp: args.unix_timestamp, epoch: args.epoch, custodian: args.custodian }
}

/// The `SetLockupChecked` change that `args` stands for.
pub open spec fn lockup_checked_data_of(args: LockupCheckedArgs) -> LockupCheckedData {
    LockupCheckedData { unix_timestamp: args.unix_timestamp, epoch: args.epoch }
}

/// What running a decoded instruction gives: the accounts afterwards and
/// the return data (the minimum delegation, for `GetMinimumDelegation`).
pub open spec fn spec_dispatch_wire(accs: Seq<AccountState>, ix: StakeInstruction, ctx: InvokeContext) -> Result<
    (Seq<AccountState>, Option<u64>),
    ProgramError,
> {
    match ix {
        StakeInstruction::Initialize(authorized, lockup) => without_return(spec_initialize(accs, authorized, lockup, ctx.rent_exempt_reserve)),
        StakeInstruction::Authorize(new_authority, which) => without_return(spec_process_authorize(accs, new_authority, which)),
        StakeInstruction::DelegateStake => without_return(spec_delegate(accs, true, ctx.first_status)),
        StakeInstruction::Split(lamports) => without_return(spec_process_split(accs, lamports, ctx.rent_exempt_reserve, ctx.first_status)),
        StakeInstruction::Withdraw(lamports) => without_return(spec_process_withdraw(accs, lamports, ctx.first_status)),
        StakeInstruction::Deactivate => without_return(spec_process_deactivate(accs)),
        StakeInstruction::SetLockup(args) => without_return(
            spec_process_set_lockup_parsed(accs, set_lockup_data_of(args), ctx.clock),
        ),
        StakeInstruction::Merge => without_return(spec_process_merge(accs, ctx.first_status, ctx.second_status)),
        StakeInstruction::AuthorizeWithSeed(args) => without_return(
            spec_process_authorized_with_seeds(accs, args.new_authorized_pubkey, args.stake_authorize),
        ),
        StakeInstruction::InitializeChecked => without_return(spec_process_initialize_checked(accs, ctx.rent_exempt_reserve)),
        StakeInstruction::AuthorizeChecked(which) => without_return(spec_process_authorize_checked(accs, which)),
        StakeInstruction::AuthorizeCheckedWithSeed(args) => without_return(
            spec_process_authorize_checked_with_seed(accs, args.stake_authorize, ctx.seed_address),
        ),
        StakeInstruction::SetLockupChecked(args) => without_return(
            spec_set_lockup_checked_parsed(accs, lockup_checked_data_of(args), ctx.clock),
        ),
        StakeInstruction::GetMinimumDelegation => Ok((accs, Some(spec_minimum_delegation()))),
        StakeInstruction::DeactivateDelinquent => without_return(spec_process_deactivate_delinquent(accs, ctx.clock)),
        StakeInstruction::Redelegate => Err(ProgramError::InvalidInstructionData),
        StakeInstruction::MoveStake(lamports) => without_return(
            spec_process_move_stake(accs, lamports, ctx.clock, ctx.first_status, ctx.second_status),
        ),
        StakeInstruction::MoveLamports(lamports) => without_return(
            spec_process_move_lamports(accs, lamports, ctx.clock, ctx.first_status, ctx.second_status),
        ),
    }
}

/// Runs a decoded instruction.
pub fn dispatch_wire_instruction(
    accounts: &mut Vec<AccountInfo>,
    ix: StakeInstruction,
    ctx: &InvokeContext,
) -> (r: Result<Option<u64>, ProgramError>)
    ensures
        final(accounts)@.len() == old(accounts)@.len(),
        r is Err ==> states(final(accounts)@) == states(old(accounts)@),
        match spec_dispatch_wire(states(old(accounts)@), ix, *ctx) {
            Ok((s, ret)) => r == Ok::<Option<u64>, ProgramError>(ret) && states(final(accounts)@) == s,
            Err(e) => r == Err::<Option<u64>, ProgramError>(e),
        },
{
    let ghost accs = states(accounts@);
    let outcome = match ix {
        StakeInstruction::Initialize(authorized, lockup) => initialize(accounts, authorized, lockup, ctx.rent_exempt_reserve),
        StakeInstruction::Authorize(new_authority, which) => process_authorize(accounts, new_authority, which),
        StakeInstruction::DelegateStake => process_delegate(accounts, &ctx.first_status),
        StakeInstruction::Split(lamports) => process_split(accounts, lamports, &ctx.clock, ctx.rent_exempt_reserve, &ctx.first_status),
        StakeInstruction::Withdraw(lamports) => process_withdraw(accounts, lamports, &ctx.first_status),
        StakeInstruction::Deactivate => process_deactivate(accounts),
        StakeInstruction::SetLockup(args) => {
            let data = SetLockupData { unix_timestamp: args.unix_timestamp, epoch: args.epoch, custodian: args.custodian };
            process_set_lockup_parsed(accounts, data, &ctx.clock)
        },
        StakeInstruction::Merge => process_merge(accounts, &ctx.first_status, &ctx.second_status),
        StakeInstruction::AuthorizeWithSeed(args) => {
            let seed = vstd::slice::slice_to_vec(args.authority_seed.as_str().as_bytes());
            let data = AuthorizeWithSeedData {
                new_authorized: args.new_authorized_pubkey,
                stake_authorize: args.stake_authorize,
                authority_seed: seed,
                authority_owner: args.authority_owner,
            };
            process_authorized_with_seeds(accounts, data)
        },
        StakeInstruction::InitializeChecked => process_initialize_checked(accounts, ctx.rent_exempt_reserve),
        StakeInstruction::AuthorizeChecked(which) => process_authorize_checked(accounts, which),
        StakeInstruction::AuthorizeCheckedWithSeed(args) => {
            let seed = vstd::slice::slice_to_vec(args.authority_seed.as_str().as_bytes());
            // The handler takes the new authority from its accounts.
            let data = AuthorizeCheckedWithSeedData {
                new_authorized: DEFAULT_PUBKEY,
                stake_authorize: args.stake_authorize,
                authority_seed: seed,
                authority_owner: args.authority_owner,
            };
            process_authorize_checked_with_seed(accounts, data, ctx.seed_address)
        },
        StakeInstruction::SetLockupChecked(args) => {
            let checked = LockupCheckedData { unix_timestamp: args.unix_timestamp, epoch: args.epoch };
            process_set_lockup_checked_parsed(accounts, checked, &ctx.clock)
        },
        StakeInstruction::GetMinimumDelegation => {
            return Ok(Some(get_minimum_delegation()));
        },
        StakeInstruction::DeactivateDelinquent => process_deactivate_delinquent(accounts, &ctx.clock),
        StakeInstruction::Redelegate => {
            return Err(ProgramError::InvalidInstructionData);
        },
        StakeInstruction::MoveStake(lamports) => process_move_stake(
            accounts,
            lamports,
            &ctx.clock,
            &ctx.first_status,
            &ctx.second_status,
        ),
        StakeInstruction::MoveLamports(lamports) => process_move_lamports(
            accounts,
            lamports,
            &ctx.clock,
            &ctx.first_status,
            &ctx.second_status,
        ),
    };
    match outcome {
        Ok(()) => Ok(None),
        Err(e) => Err(e),
    }
}

/// The authorities of an `Initialize` payload.
pub open spec fn payload_authorized(p: Seq<u8>) -> Authorized {
    Authorized { staker: pubkey_of(p.subrange(0, 32)), withdrawer: pubkey_of(p.subrange(32, 64)) }
}

/// The lockup of an `Initialize` payload.
pub open spec fn payload_lockup(p: Seq<u8>) -> Lockup {
    Lockup {
        unix_timestamp: le_u64_at(p, 64) as i64,
        epoch: le_u64_at(p, 72),
        custodian: pubkey_of(p.subrange(80, 112)),
    }
}

/// An amount payload: exactly eight little-endian bytes.
pub open spec fn spec_read_u64(p: Seq<u8>) -> Result<u64, ProgramError> {
    if p.len() != 8 {
        Err(ProgramError::InvalidInstructionData)
    } else {
        Ok(le_u64_at(p, 0))
    }
}

/// What an instruction of kind `kind` with its raw payload gives.
/// `Initialize` takes 112 bytes (staker, withdrawer, lockup time, lockup
/// epoch, custodian), `Authorize` 33 (new authority, role byte),
/// `AuthorizeChecked` one role byte, the amount-carrying instructions eight
/// bytes; the with-seed and lockup instructions hand their payload on.
pub open spec fn spec_dispatch_legacy(
    accs: Seq<AccountState>,
    kind: InstructionKind,
    payload: Seq<u8>,
    ctx: InvokeContext,
) -> Result<(Seq<AccountState>, Option<u64>), ProgramError> {
    match kind {
        InstructionKind::Initialize => if payload.len() != 112 {
            Err(ProgramError::InvalidInstructionData)
        } else {
            without_return(spec_initialize(accs, payload_authorized(payload), payload_lockup(payload), ctx.rent_exempt_reserve))
        },
        InstructionKind::InitializeChecked => without_return(spec_process_initialize_checked(accs, ctx.rent_exempt_reserve)),
        InstructionKind::Authorize => if payload.len() != 33 {
            Err(ProgramError::InvalidInstructionData)
        } else {
            match spec_role_of(payload[32]) {
                None => Err(ProgramError::InvalidInstructionData),
                Some(which) => without_return(spec_process_authorize(accs, pubkey_of(payload.subrange(0, 32)), which)),
            }
        },
        InstructionKind::AuthorizeWithSeed => {
            if !crate::state::accounts::seed_payload_ok(payload) {
                Err(ProgramError::InvalidInstructionData)
            } else {
                match spec_role_of(payload[32]) {
                    None => Err(ProgramError::InvalidInstructionData),
                    Some(which) => without_return(
                        spec_process_authorized_with_seeds(accs, pubkey_of(payload.subrange(0, 32)), which),
                    ),
                }
            }
        },
        InstructionKind::AuthorizeChecked => if payload.len() != 1 {
            Err(ProgramError::InvalidInstructionData)
        } else {
            match spec_role_of(payload[0]) {
                None => Err(ProgramError::InvalidInstructionData),
                Some(which) => without_return(spec_process_authorize_checked(accs, which)),
            }
        },
        InstructionKind::AuthorizeCheckedWithSeed => {
            if !crate::state::accounts::seed_payload_ok(payload) {
                Err(ProgramError::InvalidInstructionData)
            } else {
                match spec_role_of(payload[32]) {
                    None => Err(ProgramError::InvalidInstructionData),
                    Some(which) => without_return(spec_process_authorize_checked_with_seed(accs, which, ctx.seed_address)),
                }
            }
        },
        InstructionKind::DelegateStake => without_return(spec_delegate(accs, true, ctx.first_status)),
        InstructionKind::Split => match spec_read_u64(payload) {
            Err(e) => Err(e),
            Ok(lamports) => without_return(spec_process_split(accs, lamports, ctx.rent_exempt_reserve, ctx.first_status)),
        },
        InstructionKind::Withdraw => match spec_read_u64(payload) {
            Err(e) => Err(e),
            Ok(lamports) => without_return(spec_process_withdraw(accs, lamports, ctx.first_status)),
        },
        InstructionKind::Deactivate => without_return(spec_process_deactivate(accs)),
        InstructionKind::SetLockup => without_return(spec_process_set_lockup(accs, payload, ctx.clock)),
        InstructionKind::SetLockupChecked => without_return(spec_process_set_lockup_checked(accs, payload, ctx.clock)),
        InstructionKind::Merge => without_return(spec_process_merge(accs, ctx.first_status, ctx.second_status)),
        InstructionKind::MoveStake => match spec_read_u64(payload) {
            Err(e) => Err(e),
            Ok(lamports) => without_return(
                spec_process_move_stake(accs, lamports, ctx.clock, ctx.first_status, ctx.second_status),
            ),
        },
        InstructionKind::MoveLamports => match spec_read_u64(payload) {
            Err(e) => Err(e),
            Ok(lamports) => without_return(
                spec_process_move_lamports(accs, lamports, ctx.clock, ctx.first_status, ctx.second_status),
            ),
        },
        InstructionKind::GetMinimumDelegation => Ok((accs, Some(spec_minimum_delegation()))),
        InstructionKind::DeactivateDelinquent => without_return(spec_process_deactivate_delinquent(accs, ctx.clock)),
        InstructionKind::Redelegate => Err(ProgramError::InvalidInstructionData),
    }
}

/// What an instruction gives. The program id must be the stake program's.
/// Where `decoded` holds the instruction decoded from `data`, that runs;
/// otherwise the first byte of `data` names the instruction and the rest is
/// its payload.
pub open spec fn spec_process_instruction(
    program_id: Pubkey,
    accs: Seq<AccountState>,
    data: Seq<u8>,
    decoded: Option<StakeInstruction>,
    ctx: InvokeContext,
) -> Result<(Seq<AccountState>, Option<u64>), ProgramError> {
    if program_id != crate::ID {
        Err(ProgramError::IncorrectProgramId)
    } else {
        match decoded {
            Some(ix) => spec_dispatch_wire(accs, ix, ctx),
            None => if data.len() == 0 {
                Err(ProgramError::InvalidInstructionData)
            } else {
                match spec_instruction_of(data[0]) {
                    None => Err(ProgramError::InvalidInstructionData),
                    Some(kind) => spec_dispatch_legacy(accs, kind, data.subrange(1, data.len() as int), ctx),
                }
            },
        }
    }
}

/// An amount payload of exactly eight bytes.
fn read_u64(data: &[u8]) -> (r: Result<u64, ProgramError>)
    ensures
        r == spec_read_u64(data@),
{
    if data.len() != 8 {
        return Err(ProgramError::InvalidInstructionData);
    }
    Ok(read_u64_le(data, 0))
}

/// Runs an instruction with its raw payload.
fn dispatch_legacy(
    accounts: &mut Vec<AccountInfo>,
    kind: InstructionKind,
    payload: &[u8],
    ctx: &InvokeContext,
) -> (r: Result<Option<u64>, ProgramError>)
    ensures
        final(accounts)@.len() == old(accounts)@.len(),
        r is Err ==> states(final(accounts)@) == states(old(accounts)@),
        match spec_dispatch_legacy(states(old(accounts)@), kind, payload@, *ctx) {
            Ok((s, ret)) => r == Ok::<Option<u64>, ProgramError>(ret) && states(final(accounts)@) == s,
            Err(e) => r == Err::<Option<u64>, ProgramError>(e),
        },
{
    let outcome = match kind {
        InstructionKind::Initialize => {
            if payload.len() != 112 {
                return Err(ProgramError::InvalidInstructionData);
            }
            let staker = read_pubkey(payload, 0);
            let withdrawer = read_pubkey(payload, 32);
            let unix_timestamp = read_u64_le(payload, 64) as i64;
            let epoch = read_u64_le(payload, 72);
            let custodian = read_pubkey(payload, 80);
            let authorized = Authorized { staker, withdrawer };
            let lockup = Lockup { unix_timestamp, epoch, custodian };
            initialize(accounts, authorized, lockup, ctx.rent_exempt_reserve)
        },
        InstructionKind::InitializeChecked => process_initialize_checked(accounts, ctx.rent_exempt_reserve),
        InstructionKind::Authorize => {
            if payload.len() != 33 {
                return Err(ProgramError::InvalidInstructionData);
            }
            let new_authority = read_pubkey(payload, 0);
            let which = role_of(payload[32])?;
            process_authorize(accounts, new_authority, which)
        },
        InstructionKind::AuthorizeWithSeed => {
            let args = AuthorizeWithSeedData::parse(payload)?;
            proof {
                crate::bytes::lemma_pubkey_of(args.new_authorized);
            }
            process_authorized_with_seeds(accounts, args)
        },
        InstructionKind::AuthorizeChecked => {
            if payload.len() != 1 {
                return Err(ProgramError::InvalidInstructionData);
            }
            let which = role_of(payload[0])?;
            process_authorize_checked(accounts, which)
        },
        InstructionKind::AuthorizeCheckedWithSeed => {
            let args = AuthorizeCheckedWithSeedData::parse(payload)?;
            process_authorize_checked_with_seed(accounts, args, ctx.seed_address)
        },
        InstructionKind::DelegateStake => process_delegate(accounts, &ctx.first_status),
        InstructionKind::Split => {
            let lamports = read_u64(payload)?;
            process_split(accounts, lamports, &ctx.clock, ctx.rent_exempt_reserve, &ctx.first_status)
        },
        InstructionKind::Withdraw => {
            let lamports = read_u64(payload)?;
            process_withdraw(accounts, lamports, &ctx.first_status)
        },
        InstructionKind::Deactivate => process_deactivate(accounts),
        InstructionKind::SetLockup => process_set_lockup(accounts, payload, &ctx.clock),
        InstructionKind::SetLockupChecked => process_set_lockup_checked(accounts, payload, &ctx.clock),
        InstructionKind::Merge => process_merge(accounts, &ctx.first_status, &ctx.second_status),
        InstructionKind::MoveStake => {
            let lamports = read_u64(payload)?;
            process_move_stake(accounts, lamports, &ctx.clock, &ctx.first_status, &ctx.second_status)
        },
        InstructionKind::MoveLamports => {
            let lamports = read_u64(payload)?;
            process_move_lamports(accounts, lamports, &ctx.clock, &ctx.first_status, &ctx.second_status)
        },
        InstructionKind::GetMinimumDelegation => {
            return Ok(Some(get_minimum_delegation()));
        },
        InstructionKind::DeactivateDelinquent => process_deactivate_delinquent(accounts, &ctx.clock),
        InstructionKind::Redelegate => {
            return Err(ProgramError::InvalidInstructionData);
        },
    };
    match outcome {
        Ok(()) => Ok(None),
        Err(e) => Err(e),
    }
}

/// Processes one instruction for the stake program. `decoded` is what the
/// whole of `instruction_data` decodes to as an instruction value, where it
/// does; otherwise the first byte names the instruction. Returns the return
/// data, which only `GetMinimumDelegation` sets.
pub fn process_instruction(
    program_id: &Pubkey,
    accounts: &mut Vec<AccountInfo>,
    instruction_data: &[u8],
    decoded: Option<StakeInstruction>,
    ctx: &InvokeContext,
) -> (r: Result<Option<u64>, ProgramError>)
    ensures
        final(accounts)@.len() == old(accounts)@.len(),
        r is Err ==> states(final(accounts)@) == states(old(accounts)@),
        match spec_process_instruction(*program_id, states(old(accounts)@), instruction_data@, decoded, *ctx) {
            Ok((s, ret)) => r == Ok::<Option<u64>, ProgramError>(ret) && states(final(accounts)@) == s,
            Err(e) => r == Err::<Option<u64>, ProgramError>(e),
        },
{
    if !pubkey_eq(program_id, &crate::ID) {
        return Err(ProgramError::IncorrectProgramId);
    }
    if let Some(ix) = decoded {
        return dispatch_wire_instruction(accounts, ix, ctx);
    }
    if instruction_data.len() == 0 {
        return Err(ProgramError::InvalidInstructionData);
    }
    let kind = InstructionKind::from_discriminant(instruction_data[0])?;
    let payload = vstd::slice::slice_subrange(instruction_data, 1, instruction_data.len());
    dispatch_legacy(accounts, kind, payload, ctx)
}

/// The handlers behind the changes of authority keep every balance.
proof fn lemma_authority_changes_keep_total(
    accs: Seq<AccountState>,
    kind: InstructionKind,
    new_authorized: Pubkey,
    which: StakeAuthorize,
    derived: Result<Pubkey, ProgramError>,
)
    requires
        kind == InstructionKind::AuthorizeChecked ==> spec_process_authorize_checked(accs, which) is Ok,
        kind == InstructionKind::AuthorizeWithSeed ==> spec_process_authorized_with_seeds(accs, new_authorized, which) is Ok,
        kind == InstructionKind::AuthorizeCheckedWithSeed ==> spec_process_authorize_checked_with_seed(accs, which, derived) is Ok,
    ensures
        kind == InstructionKind::AuthorizeChecked ==> (spec_process_authorize_checked(accs, which) matches Ok(t)
            && t.len() == accs.len() && total_lamports(t) == total_lamports(accs)
            && same_layout(accs, t)),
        kind == InstructionKind::AuthorizeWithSeed ==> (spec_process_authorized_with_seeds(accs, new_authorized, which) matches Ok(t)
            && t.len() == accs.len() && total_lamports(t) == total_lamports(accs)
            && same_layout(accs, t)),
        kind == InstructionKind::AuthorizeCheckedWithSeed ==> (spec_process_authorize_checked_with_seed(accs, which, derived) matches Ok(t)
            && t.len() == accs.len() && total_lamports(t) == total_lamports(accs)
            && same_layout(accs, t)),
{
    if kind == InstructionKind::AuthorizeChecked {
        let clock = spec_clock_from_account(accs[1])->Ok_0;
        let signers = spec_signers(accs)->Ok_0;
        lemma_authorize_stake_sets_only_named(accs, accs[3].key, which, signers, account_at(accs, 4), clock);
    } else if kind == InstructionKind::AuthorizeWithSeed {
        let clock = spec_clock_from_account(accs[2])->Ok_0;
        let signers = spec_signers(accs)->Ok_0;
        lemma_authorize_stake_sets_only_named(accs, new_authorized, which, signers, account_at(accs, 3), clock);
    } else if kind == InstructionKind::AuthorizeCheckedWithSeed {
        let clock = spec_clock_from_account(accs[2])->Ok_0;
        let signers = spec_signers(accs)->Ok_0;
        let augmented = spec_with_derived(signers, derived->Ok_0);
        lemma_authorize_stake_sets_only_named(accs, accs[3].key, which, augmented, account_at(accs, 4), clock);
    }
}

/// `InitializeChecked` keeps every balance.
proof fn lemma_initialize_checked_keeps_total(accs: Seq<AccountState>, rent_exempt_reserve: u64)
    requires
        spec_process_initialize_checked(accs, rent_exempt_reserve) is Ok,
    ensures
        spec_process_initialize_checked(accs, rent_exempt_reserve) matches Ok(t) && t.len() == accs.len()
            && total_lamports(t) == total_lamports(accs) && same_layout(accs, t),
{
    let authorized = Authorized { staker: accs[2].key, withdrawer: accs[3].key };
    let lockup = Lockup { unix_timestamp: 0, epoch: 0, custodian: DEFAULT_PUBKEY };
    let a = spec_do_initialize(accs[0], authorized, lockup, rent_exempt_reserve)->Ok_0;
    lemma_total_lamports_update(accs, 0, a);
    crate::state::stake_state_v2::lemma_encode_lengths(
        StakeStateV2::Initialized(Meta { rent_exempt_reserve, authorized, lockup }),
    );
}

/// `SetLockupChecked` with a given change keeps every balance.
proof fn lemma_set_lockup_checked_keeps_total(accs: Seq<AccountState>, checked: LockupCheckedData, clock: Clock)
    requires
        spec_set_lockup_checked_parsed(accs, checked, clock) is Ok,
    ensures
        spec_set_lockup_checked_parsed(accs, checked, clock) matches Ok(t) && t.len() == accs.len()
            && total_lamports(t) == total_lamports(accs) && same_layout(accs, t),
{
    let signers = spec_signers(accs)->Ok_0;
    let custodian: Option<Pubkey> = if accs.len() > 2 { Some(accs[2].key) } else { None };
    lemma_lockup_change_keeps_balances(accs, checked.unix_timestamp, checked.epoch, custodian, signers, clock);
}

/// The `SetLockupChecked` payload that `args` stands for: a flags byte (bit
/// 0: a time follows, bit 1: an epoch follows), then the present values as
/// little-endian words, the time first.
pub open spec fn lockup_checked_payload(args: LockupCheckedArgs) -> Seq<u8> {
    let flags: u8 = match (args.unix_timestamp, args.epoch) {
        (Some(_), Some(_)) => 3,
        (Some(_), None) => 1,
        (None, Some(_)) => 2,
        (None, None) => 0,
    };
    let time = match args.unix_timestamp {
        Some(t) => le_bytes_i64(t),
        None => Seq::empty(),
    };
    let epoch = match args.epoch {
        Some(e) => le_bytes(e),
        None => Seq::empty(),
    };
    seq![flags] + time + epoch
}

/// The `Initialize` payload for the given authorities and lockup: staker,
/// withdrawer, lockup time, lockup epoch and custodian, one after another.
pub open spec fn initialize_payload(authorized: Authorized, lockup: Lockup) -> Seq<u8> {
    authorized.staker@ + authorized.withdrawer@ + le_bytes_i64(lockup.unix_timestamp) + le_bytes(lockup.epoch)
        + lockup.custodian@
}

/// A decoded `Initialize` does what the instruction bytes with the same
/// authorities and lockup do.
pub proof fn lemma_initialize_wire_matches_bytes(accs: Seq<AccountState>, authorized: Authorized, lockup: Lockup, ctx: InvokeContext)
    ensures
        spec_dispatch_wire(accs, StakeInstruction::Initialize(authorized, lockup), ctx)
            == spec_dispatch_legacy(accs, InstructionKind::Initialize, initialize_payload(authorized, lockup), ctx),
{
    let p = initialize_payload(authorized, lockup);
    lemma_le_roundtrip();
    lemma_i64_roundtrip(lockup.unix_timestamp);
    assert(p.len() == 112);
    assert(p.subrange(0, 32) =~= authorized.staker@);
    assert(p.subrange(32, 64) =~= authorized.withdrawer@);
    assert(p.subrange(64, 72) =~= le_bytes_i64(lockup.unix_timestamp));
    assert(p.subrange(72, 80) =~= le_bytes(lockup.epoch));
    assert(p.subrange(80, 112) =~= lockup.custodian@);
    crate::bytes::lemma_pubkey_of(authorized.staker);
    crate::bytes::lemma_pubkey_of(authorized.withdrawer);
    crate::bytes::lemma_pubkey_of(lockup.custodian);
    assert(payload_authorized(p) == authorized);
    assert(payload_lockup(p) == lockup);
}

/// A decoded `SetLockup` does what the instruction bytes with the same
/// fields do.
pub proof fn lemma_set_lockup_wire_matches_bytes(accs: Seq<AccountState>, args: LockupArgs, ctx: InvokeContext)
    ensures
        spec_dispatch_wire(accs, StakeInstruction::SetLockup(args), ctx)
            == spec_dispatch_legacy(accs, InstructionKind::SetLockup, set_lockup_payload(set_lockup_data_of(args)), ctx),
{
    lemma_set_lockup_payload_roundtrip(set_lockup_data_of(args));
}

/// A decoded `SetLockupChecked` does what the instruction bytes with the
/// same time and epoch do.
pub proof fn lemma_set_lockup_checked_wire_matches_bytes(accs: Seq<AccountState>, args: LockupCheckedArgs, ctx: InvokeContext)
    ensures
        spec_dispatch_wire(accs, StakeInstruction::SetLockupChecked(args), ctx)
            == spec_dispatch_legacy(accs, InstructionKind::SetLockupChecked, lockup_checked_payload(args), ctx),
{
    let p = lockup_checked_payload(args);
    lemma_le_roundtrip();
    assert((3u8 & 1u8) != 0 && (3u8 & 2u8) != 0) by (bit_vector);
    assert((1u8 & 1u8) != 0 && (1u8 & 2u8) == 0) by (bit_vector);
    assert((2u8 & 1u8) == 0 && (2u8 & 2u8) != 0) by (bit_vector);
    assert((0u8 & 1u8) == 0 && (0u8 & 2u8) == 0) by (bit_vector);
    if let Some(t) = args.unix_timestamp {
        lemma_i64_roundtrip(t);
        assert(p.subrange(1, 9) =~= le_bytes_i64(t));
    }
    if let Some(e) = args.epoch {
        let off: int = if args.unix_timestamp is Some { 9 } else { 1 };
        assert(p.subrange(off, off + 8) =~= le_bytes(e));
    }
    assert(spec_parse_lockup_checked(p) == Ok::<LockupCheckedData, ProgramError>(lockup_checked_data_of(args)));
}

/// A decoded instruction keeps the total of the accounts' balances.
proof fn lemma_wire_keeps_total(accs: Seq<AccountState>, ix: StakeInstruction, ctx: InvokeContext)
    requires
        spec_dispatch_wire(accs, ix, ctx) is Ok,
    ensures
        spec_dispatch_wire(accs, ix, ctx) matches Ok((t, _)) && t.len() == accs.len()
            && total_lamports(t) == total_lamports(accs) && same_layout(accs, t),
{
    match ix {
        StakeInstruction::Initialize(authorized, lockup) => lemma_initialize_keeps_balances(accs, authorized, lockup, ctx.rent_exempt_reserve),
        StakeInstruction::Authorize(new_authority, which) => lemma_authorize_sets_only_named(accs, new_authority, which),
        StakeInstruction::DelegateStake => lemma_delegate_stakes_balance_above_reserve(accs, true, ctx.first_status),
        StakeInstruction::Split(lamports) => lemma_split_moves_exactly(accs, lamports, ctx.rent_exempt_reserve, ctx.first_status),
        StakeInstruction::Withdraw(lamports) => lemma_withdraw_moves_exactly(accs, lamports, ctx.first_status),
        StakeInstruction::Deactivate => lemma_deactivate_records_epoch(accs),
        StakeInstruction::SetLockup(args) => {
            let signers = spec_signers(accs)->Ok_0;
            lemma_lockup_change_keeps_balances(accs, args.unix_timestamp, args.epoch, args.custodian, signers, ctx.clock);
        },
        StakeInstruction::Merge => lemma_merge_moves_all_lamports(accs, ctx.first_status, ctx.second_status),
        StakeInstruction::AuthorizeWithSeed(args) => lemma_authority_changes_keep_total(
            accs,
            InstructionKind::AuthorizeWithSeed,
            args.new_authorized_pubkey,
            args.stake_authorize,
            ctx.seed_address,
        ),
        StakeInstruction::InitializeChecked => lemma_initialize_checked_keeps_total(accs, ctx.rent_exempt_reserve),
        StakeInstruction::AuthorizeChecked(which) => lemma_authority_changes_keep_total(
            accs,
            InstructionKind::AuthorizeChecked,
            DEFAULT_PUBKEY,
            which,
            ctx.seed_address,
        ),
        StakeInstruction::AuthorizeCheckedWithSeed(args) => lemma_authority_changes_keep_total(
            accs,
            InstructionKind::AuthorizeCheckedWithSeed,
            DEFAULT_PUBKEY,
            args.stake_authorize,
            ctx.seed_address,
        ),
        StakeInstruction::SetLockupChecked(args) => lemma_set_lockup_checked_keeps_total(accs, lockup_checked_data_of(args), ctx.clock),
        StakeInstruction::GetMinimumDelegation => {},
        StakeInstruction::DeactivateDelinquent => lemma_deactivate_delinquent_keeps_balances(accs, ctx.clock),
        StakeInstruction::Redelegate => {},
        StakeInstruction::MoveStake(lamports) => lemma_move_stake_moves_exactly(
            accs,
            lamports,
            ctx.clock,
            ctx.first_status,
            ctx.second_status,
        ),
        StakeInstruction::MoveLamports(lamports) => lemma_move_lamports_moves_exactly(
            accs,
            lamports,
            ctx.clock,
            ctx.first_status,
            ctx.second_status,
        ),
    }
}

/// An instruction given by discriminant and payload keeps the total of the
/// accounts' balances.
proof fn lemma_legacy_keeps_total(accs: Seq<AccountState>, kind: InstructionKind, payload: Seq<u8>, ctx: InvokeContext)
    requires
        spec_dispatch_legacy(accs, kind, payload, ctx) is Ok,
    ensures
        spec_dispatch_legacy(accs, kind, payload, ctx) matches Ok((t, _)) && t.len() == accs.len()
            && total_lamports(t) == total_lamports(accs) && same_layout(accs, t),
{
    match kind {
        InstructionKind::Initialize => lemma_initialize_keeps_balances(accs, payload_authorized(payload), payload_lockup(payload), ctx.rent_exempt_reserve),
        InstructionKind::InitializeChecked => lemma_initialize_checked_keeps_total(accs, ctx.rent_exempt_reserve),
        InstructionKind::Authorize => {
            let which = spec_role_of(payload[32])->Some_0;
            lemma_authorize_sets_only_named(accs, pubkey_of(payload.subrange(0, 32)), which);
        },
        InstructionKind::AuthorizeWithSeed => {
            let which = spec_role_of(payload[32])->Some_0;
            lemma_authority_changes_keep_total(accs, kind, pubkey_of(payload.subrange(0, 32)), which, ctx.seed_address);
        },
        InstructionKind::AuthorizeChecked => {
            let which = spec_role_of(payload[0])->Some_0;
            lemma_authority_changes_keep_total(accs, kind, DEFAULT_PUBKEY, which, ctx.seed_address);
        },
        InstructionKind::AuthorizeCheckedWithSeed => {
            let which = spec_role_of(payload[32])->Some_0;
            lemma_authority_changes_keep_total(accs, kind, DEFAULT_PUBKEY, which, ctx.seed_address);
        },
        InstructionKind::DelegateStake => lemma_delegate_stakes_balance_above_reserve(accs, true, ctx.first_status),
        InstructionKind::Split => lemma_split_moves_exactly(accs, spec_read_u64(payload)->Ok_0, ctx.rent_exempt_reserve, ctx.first_status),
        InstructionKind::Withdraw => lemma_withdraw_moves_exactly(accs, spec_read_u64(payload)->Ok_0, ctx.first_status),
        InstructionKind::Deactivate => lemma_deactivate_records_epoch(accs),
        InstructionKind::SetLockup => {
            let args = spec_set_lockup_args(payload);
            let signers = spec_signers(accs)->Ok_0;
            lemma_lockup_change_keeps_balances(accs, args.unix_timestamp, args.epoch, args.custodian, signers, ctx.clock);
        },
        InstructionKind::SetLockupChecked => lemma_set_lockup_checked_keeps_total(accs, spec_parse_lockup_checked(payload)->Ok_0, ctx.clock),
        InstructionKind::Merge => lemma_merge_moves_all_lamports(accs, ctx.first_status, ctx.second_status),
        InstructionKind::MoveStake => lemma_move_stake_moves_exactly(
            accs,
            spec_read_u64(payload)->Ok_0,
            ctx.clock,
            ctx.first_status,
            ctx.second_status,
        ),
        InstructionKind::MoveLamports => lemma_move_lamports_moves_exactly(
            accs,
            spec_read_u64(payload)->Ok_0,
            ctx.clock,
            ctx.first_status,
            ctx.second_status,
        ),
        InstructionKind::GetMinimumDelegation => {},
        InstructionKind::DeactivateDelinquent => lemma_deactivate_delinquent_keeps_balances(accs, ctx.clock),
        InstructionKind::Redelegate => {},
    }
}

/// No instruction creates or destroys lamports, and none reshapes its
/// accounts: whatever an instruction does when it succeeds, the balances of
/// its accounts add up to what they added up to before, and every account
/// keeps its address, owner, flags and data length.
pub proof fn lemma_instruction_conserves_lamports(
    program_id: Pubkey,
    accs: Seq<AccountState>,
    data: Seq<u8>,
    decoded: Option<StakeInstruction>,
    ctx: InvokeContext,
)
    requires
        spec_process_instruction(program_id, accs, data, decoded, ctx) is Ok,
    ensures
        spec_process_instruction(program_id, accs, data, decoded, ctx) matches Ok((t, _)) && t.len() == accs.len()
            && total_lamports(t) == total_lamports(accs) && same_layout(accs, t),
{
    match decoded {
        Some(ix) => lemma_wire_keeps_total(accs, ix, ctx),
        None => {
            let kind = spec_instruction_of(data[0])->Some_0;
            lemma_legacy_keeps_total(accs, kind, data.subrange(1, data.len() as int), ctx);
        },
    }
}

} // verus!
