//! Stake authorities and the payloads of instructions.
use vstd::prelude::*;

use crate::error::{ProgramError, StakeError};
use crate::bytes::{pubkey_of, read_pubkey};
use crate::pubkey::{contains_pubkey, pubkey_eq, Pubkey};
use crate::state::account_info::AccountInfo;
use crate::state::state::Lockup;

verus! {

/// The two authorities of a stake account.
#[derive(Clone, Copy, Debug, PartialEq, Eq)]
pub struct Authorized {
    /// Manages the stake: delegate, deactivate, split, merge.
    pub staker: Pubkey,
    /// Withdraws funds from the stake account.
    pub withdrawer: Pubkey,
}

/// Which of the two authorities an instruction concerns.
#[derive(Clone, Copy, Debug, PartialEq, Eq, Structural)]
pub enum StakeAuthorize {
    Staker,
    Withdrawer,
}

impl Authorized {
    /// Bytes that an `Authorized` takes in account data.
    pub fn size() -> (r: usize)
        ensures
            r == 64,
    {
        64
    }

    pub fn new(staker: Pubkey, withdrawer: Pubkey) -> (r: Self)
        ensures
            r.staker == staker,
            r.withdrawer == withdrawer,
    {
        Self { staker, withdrawer }
    }

    pub fn is_staker(&self, pubkey: &Pubkey) -> (r: bool)
        ensures
            r == (self.staker == *pubkey),
    {
        pubkey_eq(&self.staker, pubkey)
    }

    pub fn is_withdrawer(&self, pubkey: &Pubkey) -> (r: bool)
        ensures
            r == (self.withdrawer == *pubkey),
    {
        pubkey_eq(&self.withdrawer, pubkey)
    }

    /// The authorities that the first 64 bytes of an account's data hold
    /// (staker, then withdrawer); `InvalidAccountData` for shorter data.
    pub fn get_account_info(accounts: &AccountInfo) -> (r: Result<Self, ProgramError>)
        ensures
            r is Ok <==> accounts.data@.len() >= 64,
            r matches Ok(a) ==> a == (Authorized {
                staker: pubkey_of(accounts.data@.subrange(0, 32)),
                withdrawer: pubkey_of(accounts.data@.subrange(32, 64)),
            }),
            r matches Err(e) ==> e == ProgramError::InvalidAccountData,
    {
        if accounts.data.len() < Self::size() {
            return Err(ProgramError::InvalidAccountData);
        }
        let data = accounts.data.as_slice();
        Ok(Authorized { staker: read_pubkey(data, 0), withdrawer: read_pubkey(data, 32) })
    }

    /// The authority that `which` names.
    pub open spec fn authority(self, which: StakeAuthorize) -> Pubkey {
        match which {
            StakeAuthorize::Staker => self.staker,
            StakeAuthorize::Withdrawer => self.withdrawer,
        }
    }

    /// Succeeds where the authority that `stake_authorize` names is among the signers.
    pub fn check(&self, signers: &[Pubkey], stake_authorize: StakeAuthorize) -> (r: Result<(), StakeError>)
        ensures
            r is Ok <==> signers@.contains(self.authority(stake_authorize)),
            r matches Err(e) ==> e == StakeError::InvalidAuthorization,
    {
        let required = match stake_authorize {
            StakeAuthorize::Staker => self.staker,
            StakeAuthorize::Withdrawer => self.withdrawer,
        };
        if contains_pubkey(signers, &required) {
            Ok(())
        } else {
            Err(StakeError::InvalidAuthorization)
        }
    }
}

/// Field-wise equality of two pairs of authorities.
pub fn authorized_eq(a: &Authorized, b: &Authorized) -> (r: bool)
    ensures
        r == (*a == *b),
{
    pubkey_eq(&a.staker, &b.staker) && pubkey_eq(&a.withdrawer, &b.withdrawer)
}

/// Payload of `Initialize`: the authorities and the lockup.
#[derive(Clone, Copy, Debug)]
pub struct InitializeData {
    pub authorized: Authorized,
    pub lockup: Lockup,
}

impl InitializeData {
    /// Bytes of the payload: two addresses and a lockup.
    pub fn size() -> (r: usize)
        ensures
            r == 112,
    {
        Authorized::size() + Lockup::size()
    }
}

/// Payload of `DelegateStake`.
#[derive(Clone, Copy, Debug)]
pub struct DelegateStakeData {
    pub vote_pubkey: Pubkey,
}

impl DelegateStakeData {
    pub fn size() -> (r: usize)
        ensures
            r == 32,
    {
        32
    }
}

/// Payload of `Split`.
#[derive(Clone, Copy, Debug)]
pub struct SplitData {
    pub lamports: u64,
}

impl SplitData {
    pub fn size() -> (r: usize)
        ensures
            r == 8,
    {
        8
    }
}

/// Payload of `Withdraw`.
#[derive(Clone, Copy, Debug)]
pub struct WithdrawData {
    pub lamports: u64,
}

impl WithdrawData {
    pub fn size() -> (r: usize)
        ensures
            r == 8,
    {
        8
    }
}

/// Payload of `Authorize`.
#[derive(Clone, Copy, Debug)]
pub struct AuthorizeData {
    pub new_authorized: Pubkey,
    pub stake_authorize: StakeAuthorize,
}

impl AuthorizeData {
    /// In-memory size: an address and a one-byte tag.
    pub fn size() -> (r: usize)
        ensures
            r == 33,
    {
        33
    }
}

/// The role that a role byte of an instruction names: 0 staker, 1 withdrawer.
pub open spec fn spec_role_of(b: u8) -> Option<StakeAuthorize> {
    if b == 0 {
        Some(StakeAuthorize::Staker)
    } else if b == 1 {
        Some(StakeAuthorize::Withdrawer)
    } else {
        None
    }
}

/// Decodes a role byte.
pub fn role_of(b: u8) -> (r: Result<StakeAuthorize, ProgramError>)
    ensures
        r is Ok <==> spec_role_of(b) is Some,
        r matches Ok(role) ==> spec_role_of(b) == Some(role),
        r matches Err(e) ==> e == ProgramError::InvalidInstructionData,
{
    if b == 0 {
        Ok(StakeAuthorize::Staker)
    } else if b == 1 {
        Ok(StakeAuthorize::Withdrawer)
    } else {
        Err(ProgramError::InvalidInstructionData)
    }
}

/// Whether `data` is a well-formed with-seed payload: new authority (32 bytes),
/// role byte, seed length byte (at most 32), the seed, and the seed's owner (32 bytes).
pub open spec fn seed_payload_ok(data: Seq<u8>) -> bool {
    &&& data.len() >= 66
    &&& spec_role_of(data[32]) is Some
    &&& data[33] <= 32
    &&& data.len() >= 34 + data[33] + 32
}

/// Payload of `AuthorizeWithSeed`.
#[derive(Debug)]
pub struct AuthorizeWithSeedData {
    pub new_authorized: Pubkey,
    pub stake_authorize: StakeAuthorize,
    pub authority_seed: Vec<u8>,
    pub authority_owner: Pubkey,
}

/// Payload of `AuthorizeCheckedWithSeed` (the new authority comes from the accounts).
#[derive(Debug)]
pub struct AuthorizeCheckedWithSeedData {
    pub new_authorized: Pubkey,
    pub stake_authorize: StakeAuthorize,
    pub authority_seed: Vec<u8>,
    pub authority_owner: Pubkey,
}

/// The four fields of a well-formed with-seed payload.
pub struct SeedPayload {
    pub new_authorized: Pubkey,
    pub stake_authorize: StakeAuthorize,
    pub authority_seed: Vec<u8>,
    pub authority_owner: Pubkey,
}

/// Reads a with-seed payload.
pub fn parse_seed_payload(data: &[u8]) -> (r: Result<SeedPayload, ProgramError>)
    ensures
        r is Ok <==> seed_payload_ok(data@),
        r matches Err(e) ==> e == ProgramError::InvalidInstructionData,
        r matches Ok(p) ==> {
            let n = data@[33] as int;
            &&& p.new_authorized@ == data@.subrange(0, 32)
            &&& spec_role_of(data@[32]) == Some(p.stake_authorize)
            &&& p.authority_seed@ == data@.subrange(34, 34 + n)
            &&& p.authority_owner@ == data@.subrange(34 + n, 66 + n)
        },
{
    if data.len() < 34 + 32 {
        return Err(ProgramError::InvalidInstructionData);
    }
    let new_authorized = crate::bytes::read_pubkey(data, 0);
    let stake_authorize = role_of(data[32])?;
    let seed_len = data[33] as usize;
    if seed_len > 32 {
        return Err(ProgramError::InvalidInstructionData);
    }
    if data.len() < 34 + seed_len + 32 {
        return Err(ProgramError::InvalidInstructionData);
    }
    let authority_seed = vstd::slice::slice_to_vec(vstd::slice::slice_subrange(data, 34, 34 + seed_len));
    let authority_owner = crate::bytes::read_pubkey(data, 34 + seed_len);
    Ok(SeedPayload { new_authorized, stake_authorize, authority_seed, authority_owner })
}

impl AuthorizeWithSeedData {
    /// In-memory size on a 64-bit target: address, tag, slice reference, address.
    pub fn size() -> (r: usize)
        ensures
            r == 88,
    {
        88
    }

    /// Reads the payload: new authority, role byte, seed length, seed, seed owner.
    pub fn parse(data: &[u8]) -> (r: Result<Self, ProgramError>)
        ensures
            r is Ok <==> seed_payload_ok(data@),
            r matches Err(e) ==> e == ProgramError::InvalidInstructionData,
            r matches Ok(p) ==> {
                let n = data@[33] as int;
                &&& p.new_authorized@ == data@.subrange(0, 32)
                &&& spec_role_of(data@[32]) == Some(p.stake_authorize)
                &&& p.authority_seed@ == data@.subrange(34, 34 + n)
                &&& p.authority_owner@ == data@.subrange(34 + n, 66 + n)
            },
    {
        let p = parse_seed_payload(data)?;
        Ok(Self {
            new_authorized: p.new_authorized,
            stake_authorize: p.stake_authorize,
            authority_seed: p.authority_seed,
            authority_owner: p.authority_owner,
        })
    }
}

impl AuthorizeCheckedWithSeedData {
    /// In-memory size on a 64-bit target: address, tag, slice reference, address.
    pub fn size() -> (r: usize)
        ensures
            r == 88,
    {
        88
    }

    /// Reads the payload: new authority, role byte, seed length, seed, seed owner.
    pub fn parse(data: &[u8]) -> (r: Result<Self, ProgramError>)
        ensures
            r is Ok <==> seed_payload_ok(data@),
            r matches Err(e) ==> e == ProgramError::InvalidInstructionData,
            r matches Ok(p) ==> {
                let n = data@[33] as int;
                &&& p.new_authorized@ == data@.subrange(0, 32)
                &&& spec_role_of(data@[32]) == Some(p.stake_authorize)
                &&& p.authority_seed@ == data@.subrange(34, 34 + n)
                &&& p.authority_owner@ == data@.subrange(34 + n, 66 + n)
            },
    {
        let p = parse_seed_payload(data)?;
        Ok(Self {
            new_authorized: p.new_authorized,
            stake_authorize: p.stake_authorize,
            authority_seed: p.authority_seed,
            authority_owner: p.authority_owner,
        })
    }
}

/// Payload of `SetLockup`: each field present or absent.
#[derive(Clone, Copy, Debug)]
pub struct SetLockupData {
    pub unix_timestamp: Option<i64>,
    pub epoch: Option<u64>,
    pub custodian: Option<Pubkey>,
}

/// Whether `data` is a well-formed `SetLockup` payload: it holds the full
/// fixed layout of `SetLockupData::LEN` bytes.
pub open spec fn set_lockup_payload_ok(data: Seq<u8>) -> bool {
    data.len() >= 51
}

/// The fields of a well-formed `SetLockup` payload, laid out at fixed places:
/// a presence byte at 0 and the timestamp at 1..9, a presence byte at 9 and
/// the epoch at 10..18, a presence byte at 18 and the custodian at 19..51.
/// A field is present where its byte is not zero.
pub open spec fn spec_set_lockup_args(data: Seq<u8>) -> SetLockupData {
    SetLockupData {
        unix_timestamp: if data[0] != 0 { Some(crate::bytes::le_u64_at(data, 1) as i64) } else { None },
        epoch: if data[9] != 0 { Some(crate::bytes::le_u64_at(data, 10)) } else { None },
        custodian: if data[18] != 0 { Some(crate::bytes::pubkey_of(data.subrange(19, 51))) } else { None },
    }
}

/// The `SetLockup` payload that sets the given fields: for each field a
/// presence byte (1 present, 0 absent) and the field's bytes (zeros where
/// absent).
pub open spec fn set_lockup_payload(args: SetLockupData) -> Seq<u8> {
    let time = match args.unix_timestamp {
        Some(t) => seq![1u8] + crate::bytes::le_bytes_i64(t),
        None => seq![0u8] + crate::bytes::zeros(8),
    };
    let epoch = match args.epoch {
        Some(e) => seq![1u8] + crate::bytes::le_bytes(e),
        None => seq![0u8] + crate::bytes::zeros(8),
    };
    let custodian = match args.custodian {
        Some(c) => seq![1u8] + c@,
        None => seq![0u8] + crate::bytes::zeros(32),
    };
    time + epoch + custodian
}

/// Reading a `SetLockup` payload gives back exactly the fields it was
/// written with.
pub proof fn lemma_set_lockup_payload_roundtrip(args: SetLockupData)
    ensures
        set_lockup_payload_ok(set_lockup_payload(args)),
        spec_set_lockup_args(set_lockup_payload(args)) == args,
{
    let p = set_lockup_payload(args);
    crate::bytes::lemma_le_roundtrip();
    assert(p.len() == 51);
    if let Some(t) = args.unix_timestamp {
        crate::bytes::lemma_i64_roundtrip(t);
        assert(p.subrange(1, 9) =~= crate::bytes::le_bytes_i64(t));
    }
    if let Some(e) = args.epoch {
        assert(p.subrange(10, 18) =~= crate::bytes::le_bytes(e));
    }
    if let Some(c) = args.custodian {
        assert(p.subrange(19, 51) =~= c@);
        crate::bytes::lemma_pubkey_of(c);
    }
}

impl SetLockupData {
    /// Size of the payload: flag, timestamp, flag, epoch, flag, custodian.
    pub const LEN: usize = 51;

    /// Reads a `SetLockup` payload; `InvalidInstructionData` where it is
    /// shorter than `LEN`. Bytes after the first `LEN` are not read.
    pub fn instruction_data(data: &[u8]) -> (r: Result<Self, ProgramError>)
        ensures
            r is Ok <==> set_lockup_payload_ok(data@),
            r matches Err(e) ==> e == ProgramError::InvalidInstructionData,
            r matches Ok(args) ==> args == spec_set_lockup_args(data@),
    {
        if data.len() < Self::LEN {
            return Err(ProgramError::InvalidInstructionData);
        }
        let unix_timestamp = if data[0] != 0 {
            Some(crate::bytes::read_u64_le(data, 1) as i64)
        } else {
            None
        };
        let epoch = if data[9] != 0 {
            Some(crate::bytes::read_u64_le(data, 10))
        } else {
            None
        };
        let custodian = if data[18] != 0 {
            Some(crate::bytes::read_pubkey(data, 19))
        } else {
            None
        };
        Ok(SetLockupData { unix_timestamp, epoch, custodian })
    }
}

} // verus!
