//! The instruction handlers, each run over the accounts it receives.
use vstd::prelude::*;

pub mod authorize;
pub mod authorize_checked;
pub mod deactivate;
pub mod deactivate_delinquent;
pub mod initialize;
pub mod merge;
pub mod merge_dedicated;
pub mod move_lamports;
pub mod initialize_checked;
pub mod process_delegate;
pub mod process_move_stake;
pub mod process_redelegate;
pub mod process_set_lockup;
pub mod process_set_lockup_checked;
pub mod split;
pub mod process_authorize_checked_with_seed;
pub mod process_authorized_with_seeds;
pub mod process_withdraw;
pub mod withdraw;

use crate::error::ProgramError;
use crate::helpers::authorize::{
    authorize_update, lemma_authorize_update_sets_only_named, opt_state, spec_authorize_update, spec_with_authority,
};
use crate::helpers::constant::MAXIMUM_SIGNERS;
use crate::helpers::utils::{
    collect_signers, get_stake_state, set_stake_state_at, spec_get_stake_state, spec_set_stake_state, TOO_MANY_SIGNERS,
};
use crate::pubkey::{Pubkey, DEFAULT_PUBKEY};
use crate::state::account_info::{
    lemma_signer_keys_contains, lemma_total_lamports_update, same_layout, signed_by, signer_keys, states, total_lamports,
    with_data,
    AccountInfo, AccountState,
};
use crate::state::stake_state_v2::{lemma_encode_lengths, lemma_serialize_deserialize_roundtrip, spec_deserialize};
use crate::state::accounts::StakeAuthorize;
use crate::state::stake_state_v2::StakeStateV2;
use crate::sysvars::Clock;

verus! {

/// The instructions of the stake program, in the order of their one-byte
/// discriminants (0 to 17).
#[derive(Clone, Copy, Debug, PartialEq, Eq, Structural)]
pub enum StakeInstruction {
    Initialize,
    Authorize,
    DelegateStake,
    Split,
    Withdraw,
    Deactivate,
    SetLockup,
    Merge,
    AuthorizeWithSeed,
    InitializeChecked,
    AuthorizeChecked,
    AuthorizeCheckedWithSeed,
    SetLockupChecked,
    GetMinimumDelegation,
    DeactivateDelinquent,
    Redelegate,
    MoveStake,
    MoveLamports,
}

/// The instruction with discriminant `b`, if any.
pub open spec fn spec_instruction_of(b: u8) -> Option<StakeInstruction> {
    if b == 0 {
        Some(StakeInstruction::Initialize)
    } else if b == 1 {
        Some(StakeInstruction::Authorize)
    } else if b == 2 {
        Some(StakeInstruction::DelegateStake)
    } else if b == 3 {
        Some(StakeInstruction::Split)
    } else if b == 4 {
        Some(StakeInstruction::Withdraw)
    } else if b == 5 {
        Some(StakeInstruction::Deactivate)
    } else if b == 6 {
        Some(StakeInstruction::SetLockup)
    } else if b == 7 {
        Some(StakeInstruction::Merge)
    } else if b == 8 {
        Some(StakeInstruction::AuthorizeWithSeed)
    } else if b == 9 {
        Some(StakeInstruction::InitializeChecked)
    } else if b == 10 {
        Some(StakeInstruction::AuthorizeChecked)
    } else if b == 11 {
        Some(StakeInstruction::AuthorizeCheckedWithSeed)
    } else if b == 12 {
        Some(StakeInstruction::SetLockupChecked)
    } else if b == 13 {
        Some(StakeInstruction::GetMinimumDelegation)
    } else if b == 14 {
        Some(StakeInstruction::DeactivateDelinquent)
    } else if b == 15 {
        Some(StakeInstruction::Redelegate)
    } else if b == 16 {
        Some(StakeInstruction::MoveStake)
    } else if b == 17 {
        Some(StakeInstruction::MoveLamports)
    } else {
        None
    }
}

impl StakeInstruction {
    /// The instruction with discriminant `b`; `InvalidInstructionData` for
    /// an unknown one.
    pub fn from_discriminant(b: u8) -> (r: Result<StakeInstruction, ProgramError>)
        ensures
            match spec_instruction_of(b) {
                Some(i) => r == Ok::<StakeInstruction, ProgramError>(i),
                None => r == Err::<StakeInstruction, ProgramError>(ProgramError::InvalidInstructionData),
            },
    {
        match b {
            0 => Ok(StakeInstruction::Initialize),
            1 => Ok(StakeInstruction::Authorize),
            2 => Ok(StakeInstruction::DelegateStake),
            3 => Ok(StakeInstruction::Split),
            4 => Ok(StakeInstruction::Withdraw),
            5 => Ok(StakeInstruction::Deactivate),
            6 => Ok(StakeInstruction::SetLockup),
            7 => Ok(StakeInstruction::Merge),
            8 => Ok(StakeInstruction::AuthorizeWithSeed),
            9 => Ok(StakeInstruction::InitializeChecked),
            10 => Ok(StakeInstruction::AuthorizeChecked),
            11 => Ok(StakeInstruction::AuthorizeCheckedWithSeed),
            12 => Ok(StakeInstruction::SetLockupChecked),
            13 => Ok(StakeInstruction::GetMinimumDelegation),
            14 => Ok(StakeInstruction::DeactivateDelinquent),
            15 => Ok(StakeInstruction::Redelegate),
            16 => Ok(StakeInstruction::MoveStake),
            17 => Ok(StakeInstruction::MoveLamports),
            _ => Err(ProgramError::InvalidInstructionData),
        }
    }
}

/// The signers of an instruction, in order; `Custom(1)` beyond `MAXIMUM_SIGNERS`.
pub open spec fn spec_signers(accs: Seq<AccountState>) -> Result<Seq<Pubkey>, ProgramError> {
    if signer_keys(accs).len() <= MAXIMUM_SIGNERS {
        Ok(signer_keys(accs))
    } else {
        Err(ProgramError::Custom(TOO_MANY_SIGNERS))
    }
}

/// What storing `s` into account `i` gives.
pub open spec fn spec_store(accs: Seq<AccountState>, i: int, s: StakeStateV2) -> Result<Seq<AccountState>, ProgramError> {
    match spec_set_stake_state(accs[i], s) {
        Ok(a) => Ok(accs.update(i, a)),
        Err(e) => Err(e),
    }
}

/// Storing a state changes only that account's data, which then holds the
/// state: every balance, and so the total, stays.
pub proof fn lemma_store_keeps_lamports(accs: Seq<AccountState>, i: int, s: StakeStateV2)
    requires
        0 <= i < accs.len(),
        spec_store(accs, i, s) is Ok,
    ensures
        spec_store(accs, i, s) matches Ok(t) && {
            &&& t.len() == accs.len()
            &&& total_lamports(t) == total_lamports(accs)
            &&& same_layout(accs, t)
            &&& t[i] == with_data(accs[i], t[i].data)
            &&& spec_deserialize(t[i].data) == Ok::<StakeStateV2, ProgramError>(s)
            &&& forall|j: int| 0 <= j < accs.len() && j != i ==> #[trigger] t[j] == accs[j]
        },
{
    let a = spec_set_stake_state(accs[i], s)->Ok_0;
    lemma_total_lamports_update(accs, i, a);
    lemma_serialize_deserialize_roundtrip(s, accs[i].data.len());
    lemma_encode_lengths(s);
}

/// The account at `i`, if there is one.
pub open spec fn account_at(accs: Seq<AccountState>, i: int) -> Option<AccountState> {
    if 0 <= i < accs.len() {
        Some(accs[i])
    } else {
        None
    }
}

/// What changing an authority of the stake account (account 0) gives: its
/// state must be initialized or delegated; the metadata changes as
/// `spec_authorize_update` says and the rest of the state stays.
pub open spec fn spec_authorize_stake(
    accs: Seq<AccountState>,
    new_authorized: Pubkey,
    which: StakeAuthorize,
    signers: Seq<Pubkey>,
    lockup_authority: Option<AccountState>,
    clock: Clock,
) -> Result<Seq<AccountState>, ProgramError> {
    match spec_get_stake_state(accs[0]) {
        Err(e) => Err(e),
        Ok(StakeStateV2::Initialized(meta)) => match spec_authorize_update(meta, new_authorized, which, signers, lockup_authority, clock) {
            Ok(m) => spec_store(accs, 0, StakeStateV2::Initialized(m)),
            Err(e) => Err(e),
        },
        Ok(StakeStateV2::Stake(meta, stake, flags)) => match spec_authorize_update(meta, new_authorized, which, signers, lockup_authority, clock) {
            Ok(m) => spec_store(accs, 0, StakeStateV2::Stake(m, stake, flags)),
            Err(e) => Err(e),
        },
        Ok(_) => Err(ProgramError::InvalidAccountData),
    }
}

/// Changing an authority of the stake account rewrites only its metadata's
/// named authority: the state keeps its kind and every other field, no
/// balance changes and the other accounts stay.
pub proof fn lemma_authorize_stake_sets_only_named(
    accs: Seq<AccountState>,
    new_authorized: Pubkey,
    which: StakeAuthorize,
    signers: Seq<Pubkey>,
    lockup_authority: Option<AccountState>,
    clock: Clock,
)
    requires
        accs.len() >= 1,
        spec_authorize_stake(accs, new_authorized, which, signers, lockup_authority, clock) is Ok,
    ensures
        spec_authorize_stake(accs, new_authorized, which, signers, lockup_authority, clock) matches Ok(t) && {
            &&& t.len() == accs.len()
            &&& total_lamports(t) == total_lamports(accs)
            &&& same_layout(accs, t)
            &&& t[0].lamports == accs[0].lamports
            &&& forall|j: int| 1 <= j < accs.len() ==> #[trigger] t[j] == accs[j]
            &&& spec_get_stake_state(accs[0]) matches Ok(StakeStateV2::Initialized(m0)) ==> spec_deserialize(t[0].data)
                == Ok::<StakeStateV2, ProgramError>(StakeStateV2::Initialized(spec_with_authority(m0, which, new_authorized)))
            &&& spec_get_stake_state(accs[0]) matches Ok(StakeStateV2::Stake(m0, s0, f0)) ==> spec_deserialize(t[0].data)
                == Ok::<StakeStateV2, ProgramError>(StakeStateV2::Stake(spec_with_authority(m0, which, new_authorized), s0, f0))
        },
{
    match spec_get_stake_state(accs[0])->Ok_0 {
        StakeStateV2::Initialized(meta) => {
            lemma_authorize_update_sets_only_named(meta, new_authorized, which, signers, lockup_authority, clock);
            lemma_store_keeps_lamports(accs, 0, StakeStateV2::Initialized(spec_with_authority(meta, which, new_authorized)));
        },
        StakeStateV2::Stake(meta, stake, flags) => {
            lemma_authorize_update_sets_only_named(meta, new_authorized, which, signers, lockup_authority, clock);
            lemma_store_keeps_lamports(accs, 0, StakeStateV2::Stake(spec_with_authority(meta, which, new_authorized), stake, flags));
        },
        _ => {},
    }
}

/// Who may change an authority of a stake account, for a change that
/// succeeds with the instruction's signers: a new staker was signed for by
/// the current staker or withdrawer, a new withdrawer by the current
/// withdrawer, and, while the lockup blocks it, also by the custodian as the
/// signing lockup authority account.
pub proof fn lemma_authorize_stake_needs_authority(
    accs: Seq<AccountState>,
    new_authorized: Pubkey,
    which: StakeAuthorize,
    lockup_authority: Option<AccountState>,
    clock: Clock,
)
    requires
        spec_signers(accs) is Ok,
        spec_authorize_stake(accs, new_authorized, which, spec_signers(accs)->Ok_0, lockup_authority, clock) is Ok,
    ensures
        spec_get_stake_state(accs[0]) matches Ok(state) && (state is Initialized || state is Stake) && {
            let m = match state {
                StakeStateV2::Initialized(m) => m,
                StakeStateV2::Stake(m, _, _) => m,
                _ => arbitrary(),
            };
            &&& which == StakeAuthorize::Staker ==> signed_by(accs, m.authorized.staker) || signed_by(accs, m.authorized.withdrawer)
            &&& which == StakeAuthorize::Withdrawer ==> signed_by(accs, m.authorized.withdrawer)
            &&& which == StakeAuthorize::Withdrawer && (m.lockup.epoch > clock.epoch || m.lockup.unix_timestamp > clock.unix_timestamp)
                ==> (lockup_authority matches Some(a) && a.is_signer && a.key == m.lockup.custodian)
        },
{
    let signers = spec_signers(accs)->Ok_0;
    let m = match spec_get_stake_state(accs[0])->Ok_0 {
        StakeStateV2::Initialized(m) => m,
        StakeStateV2::Stake(m, _, _) => m,
        _ => arbitrary(),
    };
    crate::helpers::authorize::lemma_authorize_update_needs_authority(m, new_authorized, which, signers, lockup_authority, clock);
    lemma_signer_keys_contains(accs, m.authorized.staker);
    lemma_signer_keys_contains(accs, m.authorized.withdrawer);
}

/// The addresses of the signing accounts.
pub fn collect_signer_keys(accounts: &Vec<AccountInfo>) -> (r: Result<Vec<Pubkey>, ProgramError>)
    ensures
        match spec_signers(states(accounts@)) {
            Ok(s) => r matches Ok(v) && v@ == s,
            Err(e) => r == Err::<Vec<Pubkey>, ProgramError>(e),
        },
{
    let mut buf: [Pubkey; 32] = [DEFAULT_PUBKEY; 32];
    let n = collect_signers(accounts.as_slice(), &mut buf)?;
    let mut v: Vec<Pubkey> = Vec::new();
    let mut i: usize = 0;
    while i < n
        invariant
            0 <= i <= n,
            n <= 32,
            v@ == buf@.subrange(0, i as int),
        decreases n - i,
    {
        v.push(buf[i]);
        i = i + 1;
        proof {
            assert(buf@.subrange(0, i as int) =~= buf@.subrange(0, (i - 1) as int).push(buf@[i - 1]));
        }
    }
    Ok(v)
}

/// Changes an authority of the stake account (account 0), with the optional
/// lockup authority at `lockup_index`.
pub fn authorize_stake_account(
    accounts: &mut Vec<AccountInfo>,
    new_authorized: Pubkey,
    which: StakeAuthorize,
    signers: &[Pubkey],
    lockup_index: usize,
    clock: &Clock,
) -> (r: Result<(), ProgramError>)
    requires
        old(accounts)@.len() >= 1,
    ensures
        final(accounts)@.len() == old(accounts)@.len(),
        r is Err ==> states(final(accounts)@) == states(old(accounts)@),
        match spec_authorize_stake(states(old(accounts)@), new_authorized, which, signers@,
            account_at(states(old(accounts)@), lockup_index as int), *clock) {
            Ok(s) => r is Ok && states(final(accounts)@) == s,
            Err(e) => r == Err::<(), ProgramError>(e),
        },
{
    let ghost accs = states(accounts@);
    let state = get_stake_state(&accounts[0])?;
    let new_state = {
        let lockup_authority: Option<&AccountInfo> = if lockup_index < accounts.len() {
            Some(&accounts[lockup_index])
        } else {
            None
        };
        proof {
            assert(opt_state(lockup_authority) == account_at(accs, lockup_index as int));
        }
        match state {
            StakeStateV2::Initialized(meta) => {
                let mut meta = meta;
                authorize_update(&mut meta, new_authorized, which, signers, lockup_authority, clock)?;
                StakeStateV2::Initialized(meta)
            },
            StakeStateV2::Stake(meta, stake, flags) => {
                let mut meta = meta;
                authorize_update(&mut meta, new_authorized, which, signers, lockup_authority, clock)?;
                StakeStateV2::Stake(meta, stake, flags)
            },
            _ => return Err(ProgramError::InvalidAccountData),
        }
    };
    set_stake_state_at(accounts, 0, &new_state)
}

} // verus!
