//! The states of a stake account and their byte layout.
use vstd::prelude::*;

use crate::bytes::{
    le_bytes, le_bytes_i64, le_u64_at, pubkey_of, push_pubkey, push_u64_le, push_zeros, read_pubkey,
    read_u64_le, zeros,
};
use crate::error::ProgramError;
use crate::state::account_info::{with_data, AccountInfo};
use crate::state::accounts::Authorized;
use crate::state::delegation::{Delegation, Stake};
use crate::state::stake_flag::StakeFlags;
use crate::state::state::{Lockup, Meta};

verus! {

/// The states a stake account can be in.
#[derive(Clone, Copy, Debug, PartialEq, Eq)]
pub enum StakeStateV2 {
    /// Exists, holds nothing yet.
    Uninitialized,
    /// Holds metadata, no delegation.
    Initialized(Meta),
    /// Holds metadata and a delegation.
    Stake(Meta, Stake, StakeFlags),
    /// The rewards pool.
    RewardsPool,
}

/// Bytes of the encoded metadata.
pub const META_SIZE: usize = 120;

/// Bytes of the encoded delegated stake.
pub const STAKE_SIZE: usize = 72;

/// Offset of the delegated stake in account data.
pub const STAKE_OFFSET: usize = 121;

/// Offset of the flags byte in account data.
pub const FLAGS_OFFSET: usize = 193;

/// The bytes of a `Meta`: reserve, staker, withdrawer, lockup time, lockup
/// epoch, custodian; integers little-endian.
pub open spec fn encode_meta(m: Meta) -> Seq<u8> {
    le_bytes(m.rent_exempt_reserve) + m.authorized.staker@ + m.authorized.withdrawer@
        + le_bytes_i64(m.lockup.unix_timestamp) + le_bytes(m.lockup.epoch) + m.lockup.custodian@
}

/// The bytes of a `Stake`: vote account, stake, activation epoch,
/// deactivation epoch, rate bits, credits observed; integers little-endian.
pub open spec fn encode_stake(s: Stake) -> Seq<u8> {
    s.delegation.voter_pubkey@ + le_bytes(s.delegation.stake) + le_bytes(s.delegation.activation_epoch)
        + le_bytes(s.delegation.deactivation_epoch) + le_bytes(s.delegation.warmup_cooldown_rate)
        + le_bytes(s.credits_observed)
}

/// The 194 bytes that encode a state: a tag byte, then the variant's fields,
/// then zeros.
pub open spec fn encode_state(s: StakeStateV2) -> Seq<u8> {
    match s {
        StakeStateV2::Uninitialized => seq![0u8] + zeros(193),
        StakeStateV2::Initialized(m) => seq![1u8] + encode_meta(m) + zeros(73),
        StakeStateV2::Stake(m, st, f) => seq![2u8] + encode_meta(m) + encode_stake(st) + seq![f.bits],
        StakeStateV2::RewardsPool => seq![3u8] + zeros(193),
    }
}

/// Account data of length `len` (at least 194) that holds `s`.
pub open spec fn serialized_data(s: StakeStateV2, len: nat) -> Seq<u8> {
    encode_state(s) + zeros((len - 194) as nat)
}

/// The `Meta` encoded at `off`.
pub open spec fn decode_meta(d: Seq<u8>, off: int) -> Meta {
    Meta {
        rent_exempt_reserve: le_u64_at(d, off),
        authorized: Authorized {
            staker: pubkey_of(d.subrange(off + 8, off + 40)),
            withdrawer: pubkey_of(d.subrange(off + 40, off + 72)),
        },
        lockup: Lockup {
            unix_timestamp: le_u64_at(d, off + 72) as i64,
            epoch: le_u64_at(d, off + 80),
            custodian: pubkey_of(d.subrange(off + 88, off + 120)),
        },
    }
}

/// The `Stake` encoded at `off`.
pub open spec fn decode_stake(d: Seq<u8>, off: int) -> Stake {
    Stake {
        delegation: Delegation {
            voter_pubkey: pubkey_of(d.subrange(off, off + 32)),
            stake: le_u64_at(d, off + 32),
            activation_epoch: le_u64_at(d, off + 40),
            deactivation_epoch: le_u64_at(d, off + 48),
            warmup_cooldown_rate: le_u64_at(d, off + 56),
        },
        credits_observed: le_u64_at(d, off + 64),
    }
}

/// The state that account data holds, by its tag byte; `InvalidAccountData`
/// for an unknown tag or data too short for its variant.
pub open spec fn spec_deserialize(d: Seq<u8>) -> Result<StakeStateV2, ProgramError> {
    if d.len() < 1 {
        Err(ProgramError::InvalidAccountData)
    } else if d[0] == 0 {
        Ok(StakeStateV2::Uninitialized)
    } else if d[0] == 1 {
        if d.len() < 121 {
            Err(ProgramError::InvalidAccountData)
        } else {
            Ok(StakeStateV2::Initialized(decode_meta(d, 1)))
        }
    } else if d[0] == 2 {
        if d.len() < 194 {
            Err(ProgramError::InvalidAccountData)
        } else {
            Ok(StakeStateV2::Stake(decode_meta(d, 1), decode_stake(d, 121), StakeFlags { bits: d[193] }))
        }
    } else if d[0] == 3 {
        Ok(StakeStateV2::RewardsPool)
    } else {
        Err(ProgramError::InvalidAccountData)
    }
}

/// The stake delegated by the state that account data holds; zero where it
/// holds no delegation.
pub open spec fn delegated_stake_of(d: Seq<u8>) -> int {
    match spec_deserialize(d) {
        Ok(StakeStateV2::Stake(_, s, _)) => s.delegation.stake as int,
        _ => 0,
    }
}

/// What writing `s` into data of length `len` gives: the data, or
/// `AccountDataTooSmall` for fewer than 194 bytes.
pub open spec fn spec_serialize(s: StakeStateV2, len: nat) -> Result<Seq<u8>, ProgramError> {
    if len < 194 {
        Err(ProgramError::AccountDataTooSmall)
    } else {
        Ok(serialized_data(s, len))
    }
}

/// The encodings have their fixed lengths.
pub proof fn lemma_encode_lengths(s: StakeStateV2)
    ensures
        encode_state(s).len() == 194,
        forall|m: Meta| #![trigger encode_meta(m)] encode_meta(m).len() == 120,
        forall|st: Stake| #![trigger encode_stake(st)] encode_stake(st).len() == 72,
{
    crate::bytes::lemma_le_roundtrip();
    assert forall|m: Meta| #![trigger encode_meta(m)] encode_meta(m).len() == 120 by {
        assert(le_bytes(m.rent_exempt_reserve).len() == 8);
        assert(le_bytes(m.lockup.unix_timestamp as u64).len() == 8);
        assert(le_bytes(m.lockup.epoch).len() == 8);
    }
    assert forall|st: Stake| #![trigger encode_stake(st)] encode_stake(st).len() == 72 by {
        assert(le_bytes(st.delegation.stake).len() == 8);
        assert(le_bytes(st.delegation.activation_epoch).len() == 8);
        assert(le_bytes(st.delegation.deactivation_epoch).len() == 8);
        assert(le_bytes(st.delegation.warmup_cooldown_rate).len() == 8);
        assert(le_bytes(st.credits_observed).len() == 8);
    }
}

proof fn lemma_meta_roundtrip(m: Meta, d: Seq<u8>, off: int)
    requires
        0 <= off,
        off + 120 <= d.len(),
        d.subrange(off, off + 120) == encode_meta(m),
    ensures
        decode_meta(d, off) == m,
{
    crate::bytes::lemma_le_roundtrip();
    lemma_encode_lengths(StakeStateV2::Initialized(m));
    assert(d.subrange(off, off + 8) =~= le_bytes(m.rent_exempt_reserve)) by {
        assert forall|i: int| 0 <= i < 8 implies d.subrange(off, off + 8)[i] == le_bytes(m.rent_exempt_reserve)[i] by {
            assert(d.subrange(off, off + 8)[i] == d.subrange(off, off + 120)[i]);
        }
    }
    assert(d.subrange(off + 8, off + 40) =~= m.authorized.staker@) by {
        assert forall|i: int| 0 <= i < 32 implies d.subrange(off + 8, off + 40)[i] == m.authorized.staker@[i] by {
            assert(d.subrange(off + 8, off + 40)[i] == d.subrange(off, off + 120)[i + 8]);
        }
    }
    assert(d.subrange(off + 40, off + 72) =~= m.authorized.withdrawer@) by {
        assert forall|i: int| 0 <= i < 32 implies d.subrange(off + 40, off + 72)[i] == m.authorized.withdrawer@[i] by {
            assert(d.subrange(off + 40, off + 72)[i] == d.subrange(off, off + 120)[i + 40]);
        }
    }
    assert(d.subrange(off + 72, off + 80) =~= le_bytes_i64(m.lockup.unix_timestamp)) by {
        assert forall|i: int| 0 <= i < 8 implies d.subrange(off + 72, off + 80)[i] == le_bytes_i64(m.lockup.unix_timestamp)[i] by {
            assert(d.subrange(off + 72, off + 80)[i] == d.subrange(off, off + 120)[i + 72]);
        }
    }
    assert(d.subrange(off + 80, off + 88) =~= le_bytes(m.lockup.epoch)) by {
        assert forall|i: int| 0 <= i < 8 implies d.subrange(off + 80, off + 88)[i] == le_bytes(m.lockup.epoch)[i] by {
            assert(d.subrange(off + 80, off + 88)[i] == d.subrange(off, off + 120)[i + 80]);
        }
    }
    assert(d.subrange(off + 88, off + 120) =~= m.lockup.custodian@) by {
        assert forall|i: int| 0 <= i < 32 implies d.subrange(off + 88, off + 120)[i] == m.lockup.custodian@[i] by {
            assert(d.subrange(off + 88, off + 120)[i] == d.subrange(off, off + 120)[i + 88]);
        }
    }
    crate::bytes::lemma_pubkey_of(m.authorized.staker);
    crate::bytes::lemma_pubkey_of(m.authorized.withdrawer);
    crate::bytes::lemma_pubkey_of(m.lockup.custodian);
    crate::bytes::lemma_i64_roundtrip(m.lockup.unix_timestamp);
}

proof fn lemma_stake_roundtrip(s: Stake, d: Seq<u8>, off: int)
    requires
        0 <= off,
        off + 72 <= d.len(),
        d.subrange(off, off + 72) == encode_stake(s),
    ensures
        decode_stake(d, off) == s,
{
    crate::bytes::lemma_le_roundtrip();
    lemma_encode_lengths(StakeStateV2::Uninitialized);
    assert(d.subrange(off, off + 32) =~= s.delegation.voter_pubkey@) by {
        assert forall|i: int| 0 <= i < 32 implies d.subrange(off, off + 32)[i] == s.delegation.voter_pubkey@[i] by {
            assert(d.subrange(off, off + 32)[i] == d.subrange(off, off + 72)[i]);
        }
    }
    assert(d.subrange(off + 32, off + 40) =~= le_bytes(s.delegation.stake)) by {
        assert forall|i: int| 0 <= i < 8 implies d.subrange(off + 32, off + 40)[i] == le_bytes(s.delegation.stake)[i] by {
            assert(d.subrange(off + 32, off + 40)[i] == d.subrange(off, off + 72)[i + 32]);
        }
    }
    assert(d.subrange(off + 40, off + 48) =~= le_bytes(s.delegation.activation_epoch)) by {
        assert forall|i: int| 0 <= i < 8 implies d.subrange(off + 40, off + 48)[i] == le_bytes(s.delegation.activation_epoch)[i] by {
            assert(d.subrange(off + 40, off + 48)[i] == d.subrange(off, off + 72)[i + 40]);
        }
    }
    assert(d.subrange(off + 48, off + 56) =~= le_bytes(s.delegation.deactivation_epoch)) by {
        assert forall|i: int| 0 <= i < 8 implies d.subrange(off + 48, off + 56)[i] == le_bytes(s.delegation.deactivation_epoch)[i] by {
            assert(d.subrange(off + 48, off + 56)[i] == d.subrange(off, off + 72)[i + 48]);
        }
    }
    assert(d.subrange(off + 56, off + 64) =~= le_bytes(s.delegation.warmup_cooldown_rate)) by {
        assert forall|i: int| 0 <= i < 8 implies d.subrange(off + 56, off + 64)[i] == le_bytes(s.delegation.warmup_cooldown_rate)[i] by {
            assert(d.subrange(off + 56, off + 64)[i] == d.subrange(off, off + 72)[i + 56]);
        }
    }
    assert(d.subrange(off + 64, off + 72) =~= le_bytes(s.credits_observed)) by {
        assert forall|i: int| 0 <= i < 8 implies d.subrange(off + 64, off + 72)[i] == le_bytes(s.credits_observed)[i] by {
            assert(d.subrange(off + 64, off + 72)[i] == d.subrange(off, off + 72)[i + 64]);
        }
    }
    crate::bytes::lemma_pubkey_of(s.delegation.voter_pubkey);
}

/// Reading back what was written gives the same state: for every state and
/// every data length of at least 194 bytes.
pub proof fn lemma_serialize_deserialize_roundtrip(s: StakeStateV2, len: nat)
    requires
        len >= 194,
    ensures
        spec_deserialize(serialized_data(s, len)) == Ok::<StakeStateV2, ProgramError>(s),
{
    let d = serialized_data(s, len);
    crate::bytes::lemma_le_roundtrip();
    lemma_encode_lengths(s);
    assert(d.len() == len);
    match s {
        StakeStateV2::Uninitialized => {
            assert(d[0] == 0u8);
        },
        StakeStateV2::Initialized(m) => {
            assert(d[0] == 1u8);
            assert(d.subrange(1, 121) =~= encode_meta(m));
            lemma_meta_roundtrip(m, d, 1);
        },
        StakeStateV2::Stake(m, st, f) => {
            assert(d[0] == 2u8);
            assert(d.subrange(1, 121) =~= encode_meta(m));
            assert(d.subrange(121, 193) =~= encode_stake(st));
            assert(d[193] == f.bits);
            lemma_meta_roundtrip(m, d, 1);
            lemma_stake_roundtrip(st, d, 121);
        },
        StakeStateV2::RewardsPool => {
            assert(d[0] == 3u8);
        },
    }
}

fn push_meta(out: &mut Vec<u8>, m: &Meta)
    ensures
        final(out)@ == old(out)@ + encode_meta(*m),
{
    push_u64_le(out, m.rent_exempt_reserve);
    push_pubkey(out, &m.authorized.staker);
    push_pubkey(out, &m.authorized.withdrawer);
    push_u64_le(out, m.lockup.unix_timestamp as u64);
    push_u64_le(out, m.lockup.epoch);
    push_pubkey(out, &m.lockup.custodian);
    proof {
        assert(final(out)@ =~= old(out)@ + encode_meta(*m));
    }
}

fn push_stake(out: &mut Vec<u8>, s: &Stake)
    ensures
        final(out)@ == old(out)@ + encode_stake(*s),
{
    push_pubkey(out, &s.delegation.voter_pubkey);
    push_u64_le(out, s.delegation.stake);
    push_u64_le(out, s.delegation.activation_epoch);
    push_u64_le(out, s.delegation.deactivation_epoch);
    push_u64_le(out, s.delegation.warmup_cooldown_rate);
    push_u64_le(out, s.credits_observed);
    proof {
        assert(final(out)@ =~= old(out)@ + encode_stake(*s));
    }
}

pub(crate) fn read_meta(data: &[u8], off: usize) -> (r: Meta)
    requires
        off + 120 <= data.len(),
    ensures
        r == decode_meta(data@, off as int),
{
    Meta {
        rent_exempt_reserve: read_u64_le(data, off),
        authorized: Authorized { staker: read_pubkey(data, off + 8), withdrawer: read_pubkey(data, off + 40) },
        lockup: Lockup {
            unix_timestamp: read_u64_le(data, off + 72) as i64,
            epoch: read_u64_le(data, off + 80),
            custodian: read_pubkey(data, off + 88),
        },
    }
}

fn read_stake(data: &[u8], off: usize) -> (r: Stake)
    requires
        off + 72 <= data.len(),
    ensures
        r == decode_stake(data@, off as int),
{
    Stake {
        delegation: Delegation {
            voter_pubkey: read_pubkey(data, off),
            stake: read_u64_le(data, off + 32),
            activation_epoch: read_u64_le(data, off + 40),
            deactivation_epoch: read_u64_le(data, off + 48),
            warmup_cooldown_rate: read_u64_le(data, off + 56),
        },
        credits_observed: read_u64_le(data, off + 64),
    }
}

impl StakeStateV2 {
    pub const TAG_UNINITIALIZED: u8 = 0;
    pub const TAG_INITIALIZED: u8 = 1;
    pub const TAG_STAKE: u8 = 2;
    pub const TAG_REWARDS_POOL: u8 = 3;

    /// Bytes of the largest variant: tag, metadata, stake, flags.
    pub const ACCOUNT_SIZE: usize = 194;

    /// Bytes that a stake account's data holds.
    pub fn size_of() -> (r: usize)
        ensures
            r == 194,
    {
        Self::ACCOUNT_SIZE
    }

    /// The 194 bytes that encode this state.
    pub fn encode(&self) -> (r: Vec<u8>)
        ensures
            r@ == encode_state(*self),
    {
        let mut out: Vec<u8> = Vec::new();
        match self {
            StakeStateV2::Uninitialized => {
                out.push(0u8);
                push_zeros(&mut out, 193);
            },
            StakeStateV2::Initialized(meta) => {
                out.push(1u8);
                push_meta(&mut out, meta);
                push_zeros(&mut out, 73);
            },
            StakeStateV2::Stake(meta, stake, flags) => {
                out.push(2u8);
                push_meta(&mut out, meta);
                push_stake(&mut out, stake);
                out.push(flags.bits);
            },
            StakeStateV2::RewardsPool => {
                out.push(3u8);
                push_zeros(&mut out, 193);
            },
        }
        proof {
            assert(out@ =~= encode_state(*self));
        }
        out
    }

    /// Reads the state that account data holds.
    pub fn deserialize(data: &[u8]) -> (r: Result<Self, ProgramError>)
        ensures
            r == spec_deserialize(data@),
    {
        if data.len() < 1 {
            return Err(ProgramError::InvalidAccountData);
        }
        let tag = data[0];
        if tag == Self::TAG_UNINITIALIZED {
            Ok(StakeStateV2::Uninitialized)
        } else if tag == Self::TAG_INITIALIZED {
            if data.len() < 1 + META_SIZE {
                return Err(ProgramError::InvalidAccountData);
            }
            Ok(StakeStateV2::Initialized(read_meta(data, 1)))
        } else if tag == Self::TAG_STAKE {
            if data.len() < FLAGS_OFFSET + 1 {
                return Err(ProgramError::InvalidAccountData);
            }
            let meta = read_meta(data, 1);
            let stake = read_stake(data, STAKE_OFFSET);
            let bits = data[FLAGS_OFFSET];
            let flags = if bits == 0 { StakeFlags::empty() } else { StakeFlags { bits } };
            Ok(StakeStateV2::Stake(meta, stake, flags))
        } else if tag == Self::TAG_REWARDS_POOL {
            Ok(StakeStateV2::RewardsPool)
        } else {
            Err(ProgramError::InvalidAccountData)
        }
    }

    /// Reads the state that an account's data holds.
    pub fn load_from_account_info(ai: &AccountInfo) -> (r: Result<Self, ProgramError>)
        ensures
            r == spec_deserialize(ai.data@),
    {
        Self::deserialize(ai.data.as_slice())
    }

    /// Writes this state into an account's data.
    pub fn store_to_account_info(&self, ai: &mut AccountInfo) -> (r: Result<(), ProgramError>)
        ensures
            match spec_serialize(*self, old(ai)@.data.len()) {
                Ok(d) => r is Ok && final(ai)@ == with_data(old(ai)@, d),
                Err(e) => r == Err::<(), ProgramError>(e) && final(ai)@ == old(ai)@,
            },
    {
        self.serialize(&mut ai.data)
    }

    /// Writes this state into account data: the encoding, then zeros to the
    /// end; `AccountDataTooSmall`, with the data untouched, below 194 bytes.
    pub fn serialize(&self, data: &mut Vec<u8>) -> (r: Result<(), ProgramError>)
        ensures
            match spec_serialize(*self, old(data)@.len()) {
                Ok(d) => r is Ok && final(data)@ == d,
                Err(e) => r == Err::<(), ProgramError>(e) && final(data)@ == old(data)@,
            },
    {
        if data.len() < Self::ACCOUNT_SIZE {
            return Err(ProgramError::AccountDataTooSmall);
        }
        let enc = self.encode();
        proof {
            lemma_encode_lengths(*self);
        }
        let n = data.len();
        let mut i: usize = 0;
        while i < n
            invariant
                0 <= i <= n,
                n == data@.len(),
                n >= 194,
                enc@ == encode_state(*self),
                enc@.len() == 194,
                forall|j: int| 0 <= j < i ==> data@[j] == serialized_data(*self, n as nat)[j],
            decreases n - i,
        {
            let b = if i < Self::ACCOUNT_SIZE { enc[i] } else { 0u8 };
            data.set(i, b);
            i = i + 1;
        }
        proof {
            assert(data@ =~= serialized_data(*self, n as nat));
        }
        Ok(())
    }
}

} // verus!
