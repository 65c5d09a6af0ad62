//! `SetLockupChecked`: change a lockup, a new custodian signing for itself.
use vstd::prelude::*;

use crate::bytes::{le_u64_at, read_u64_le};
use crate::error::ProgramError;
use crate::helpers::utils::spec_get_stake_state;
use crate::instruction::process_set_lockup::{change_lockup, lemma_lockup_change_sets_given_fields, spec_lockup_change};
use crate::state::stake_state_v2::{spec_deserialize, StakeStateV2};
use crate::state::state::{Lockup, Meta};
use crate::instruction::{collect_signer_keys, spec_signers};
use crate::pubkey::Pubkey;
use crate::state::account_info::{states, AccountInfo, AccountState};
use crate::sysvars::Clock;

verus! {

/// Payload of `SetLockupChecked`: new time and epoch, each optional.
#[derive(Clone, Copy, Debug)]
pub struct LockupCheckedData {
    pub unix_timestamp: Option<i64>,
    pub epoch: Option<u64>,
}

/// What parsing a `SetLockupChecked` payload gives: a flags byte (bit 0: a
/// time follows, bit 1: an epoch follows), then the present fields as
/// little-endian words; `InvalidInstructionData` where a field is cut off.
pub open spec fn spec_parse_lockup_checked(data: Seq<u8>) -> Result<LockupCheckedData, ProgramError> {
    if data.len() == 0 {
        Err(ProgramError::InvalidInstructionData)
    } else {
        let has_ts = (data[0] & 1) != 0;
        let has_epoch = (data[0] & 2) != 0;
        let epoch_off: int = if has_ts { 9 } else { 1 };
        if has_ts && data.len() < 9 {
            Err(ProgramError::InvalidInstructionData)
        } else if has_epoch && data.len() < epoch_off + 8 {
            Err(ProgramError::InvalidInstructionData)
        } else {
            Ok(LockupCheckedData {
                unix_timestamp: if has_ts { Some(le_u64_at(data, 1) as i64) } else { None },
                epoch: if has_epoch { Some(le_u64_at(data, epoch_off)) } else { None },
            })
        }
    }
}

impl LockupCheckedData {
    /// Parses the payload.
    pub fn parse(data: &[u8]) -> (r: Result<Self, ProgramError>)
        ensures
            r == spec_parse_lockup_checked(data@),
    {
        if data.len() == 0 {
            return Err(ProgramError::InvalidInstructionData);
        }
        let flags = data[0];
        let mut off: usize = 1;
        let unix_timestamp = if (flags & 0x01) != 0 {
            if off + 8 > data.len() {
                return Err(ProgramError::InvalidInstructionData);
            }
            let t = read_u64_le(data, off) as i64;
            off = off + 8;
            Some(t)
        } else {
            None
        };
        let epoch = if (flags & 0x02) != 0 {
            if off + 8 > data.len() {
                return Err(ProgramError::InvalidInstructionData);
            }
            Some(read_u64_le(data, off))
        } else {
            None
        };
        Ok(LockupCheckedData { unix_timestamp, epoch })
    }
}

/// What `SetLockupChecked` with its payload already parsed gives at `clock`.
/// Accounts: the stake account, the current authority, and optionally the
/// new custodian, which must sign; any signer among them counts.
pub open spec fn spec_set_lockup_checked_parsed(accs: Seq<AccountState>, checked: LockupCheckedData, clock: Clock) -> Result<Seq<AccountState>, ProgramError> {
    if accs.len() == 0 {
        Err(ProgramError::NotEnoughAccountKeys)
    } else {
        match spec_signers(accs) {
            Err(e) => Err(e),
            Ok(signers) => {
                if accs.len() > 2 && !accs[2].is_signer {
                    Err(ProgramError::MissingRequiredSignature)
                } else {
                    let custodian: Option<Pubkey> = if accs.len() > 2 { Some(accs[2].key) } else { None };
                    spec_lockup_change(accs, checked.unix_timestamp, checked.epoch, custodian, signers, clock)
                }
            },
        }
    }
}

/// A successful `SetLockupChecked` sets the given time and epoch and, where
/// a third account is passed, makes it (signing) the new custodian; without
/// one the custodian stays. Nothing else in the state changes.
pub proof fn lemma_set_lockup_checked_sets_custodian_from_accounts(accs: Seq<AccountState>, checked: LockupCheckedData, clock: Clock)
    requires
        spec_set_lockup_checked_parsed(accs, checked, clock) is Ok,
    ensures
        spec_set_lockup_checked_parsed(accs, checked, clock) matches Ok(t) && {
            &&& accs.len() > 2 ==> accs[2].is_signer
            &&& spec_get_stake_state(accs[0]) matches Ok(state) && {
                let new_state = spec_deserialize(t[0].data);
                let expect = |m: Meta| Lockup {
                    unix_timestamp: if checked.unix_timestamp is Some { checked.unix_timestamp->0 } else { m.lockup.unix_timestamp },
                    epoch: if checked.epoch is Some { checked.epoch->0 } else { m.lockup.epoch },
                    custodian: if accs.len() > 2 { accs[2].key } else { m.lockup.custodian },
                };
                match state {
                    StakeStateV2::Initialized(m) => new_state == Ok::<StakeStateV2, ProgramError>(
                        StakeStateV2::Initialized(Meta { lockup: expect(m), ..m }),
                    ),
                    StakeStateV2::Stake(m, st, f) => new_state == Ok::<StakeStateV2, ProgramError>(
                        StakeStateV2::Stake(Meta { lockup: expect(m), ..m }, st, f),
                    ),
                    _ => false,
                }
            }
        },
{
    let signers = spec_signers(accs)->Ok_0;
    let custodian: Option<Pubkey> = if accs.len() > 2 { Some(accs[2].key) } else { None };
    lemma_lockup_change_sets_given_fields(accs, checked.unix_timestamp, checked.epoch, custodian, signers, clock);
}

/// What `SetLockupChecked` gives at `clock`: the payload is parsed after the
/// accounts are counted, then the parsed change is applied.
pub open spec fn spec_process_set_lockup_checked(accs: Seq<AccountState>, instruction_data: Seq<u8>, clock: Clock) -> Result<Seq<AccountState>, ProgramError> {
    if accs.len() == 0 {
        Err(ProgramError::NotEnoughAccountKeys)
    } else {
        match spec_parse_lockup_checked(instruction_data) {
            Err(e) => Err(e),
            Ok(checked) => spec_set_lockup_checked_parsed(accs, checked, clock),
        }
    }
}

/// Changes the lockup as `checked` says, at `clock`, with the new custodian
/// taken from the accounts.
pub fn process_set_lockup_checked_parsed(accounts: &mut Vec<AccountInfo>, checked: LockupCheckedData, clock: &Clock) -> (r: Result<(), ProgramError>)
    ensures
        final(accounts)@.len() == old(accounts)@.len(),
        r is Err ==> states(final(accounts)@) == states(old(accounts)@),
        match spec_set_lockup_checked_parsed(states(old(accounts)@), checked, *clock) {
            Ok(s) => r is Ok && states(final(accounts)@) == s,
            Err(e) => r == Err::<(), ProgramError>(e),
        },
{
    if accounts.len() == 0 {
        return Err(ProgramError::NotEnoughAccountKeys);
    }
    let signers = collect_signer_keys(accounts)?;
    let custodian_update: Option<Pubkey> = if accounts.len() > 2 {
        if accounts[2].is_signer {
            Some(accounts[2].key)
        } else {
            return Err(ProgramError::MissingRequiredSignature);
        }
    } else {
        None
    };
    change_lockup(accounts, checked.unix_timestamp, checked.epoch, custodian_update, signers.as_slice(), clock)
}

/// Changes the lockup, at `clock`, with the new custodian taken from the accounts.
pub fn process_set_lockup_checked(accounts: &mut Vec<AccountInfo>, instruction_data: &[u8], clock: &Clock) -> (r: Result<(), ProgramError>)
    ensures
        final(accounts)@.len() == old(accounts)@.len(),
        r is Err ==> states(final(accounts)@) == states(old(accounts)@),
        match spec_process_set_lockup_checked(states(old(accounts)@), instruction_data@, *clock) {
            Ok(s) => r is Ok && states(final(accounts)@) == s,
            Err(e) => r == Err::<(), ProgramError>(e),
        },
{
    if accounts.len() == 0 {
        return Err(ProgramError::NotEnoughAccountKeys);
    }
    let checked = LockupCheckedData::parse(instruction_data)?;
    process_set_lockup_checked_parsed(accounts, checked, clock)
}

} // verus!
