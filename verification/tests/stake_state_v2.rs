use pinocchio_stake::error::ProgramError;
use pinocchio_stake::pubkey::DEFAULT_PUBKEY;
use pinocchio_stake::state::accounts::Authorized;
use pinocchio_stake::state::delegation::{Delegation, Stake};
use pinocchio_stake::state::stake_flag::StakeFlags;
use pinocchio_stake::state::stake_state_v2::StakeStateV2;
use pinocchio_stake::state::state::{Lockup, Meta};

fn sample_meta() -> Meta {
    Meta {
        rent_exempt_reserve: 1234,
        authorized: Authorized { staker: DEFAULT_PUBKEY, withdrawer: DEFAULT_PUBKEY },
        lockup: Lockup::default(),
    }
}

fn sample_stake() -> Stake {
    Stake {
        delegation: Delegation {
            voter_pubkey: DEFAULT_PUBKEY,
            stake: 10_000,
            activation_epoch: 7,
            deactivation_epoch: u64::MAX,
            warmup_cooldown_rate: 0.25f64.to_bits(),
        },
        credits_observed: 42,
    }
}

#[test]
fn roundtrip_uninitialized() {
    let s = StakeStateV2::Uninitialized;
    let mut buf = vec![0u8; StakeStateV2::ACCOUNT_SIZE];
    s.serialize(&mut buf).unwrap();
    assert_eq!(buf[0], StakeStateV2::TAG_UNINITIALIZED);
    let back = StakeStateV2::deserialize(&buf).unwrap();
    assert_eq!(back, s);
}

#[test]
fn roundtrip_initialized() {
    let meta = sample_meta();
    let s = StakeStateV2::Initialized(meta);
    let mut buf = vec![0u8; StakeStateV2::ACCOUNT_SIZE];
    s.serialize(&mut buf).unwrap();
    assert_eq!(buf[0], StakeStateV2::TAG_INITIALIZED);
    let back = StakeStateV2::deserialize(&buf).unwrap();
    assert_eq!(back, s);
}

#[test]
fn roundtrip_stake() {
    let meta = sample_meta();
    let stake = sample_stake();
    let flags = StakeFlags { bits: 0b0000_0101 };
    let s = StakeStateV2::Stake(meta, stake, flags);
    let mut buf = vec![0u8; StakeStateV2::ACCOUNT_SIZE];
    s.serialize(&mut buf).unwrap();
    assert_eq!(buf[0], StakeStateV2::TAG_STAKE);
    let back = StakeStateV2::deserialize(&buf).unwrap();
    assert_eq!(back, s);
}

#[test]
fn roundtrip_rewards_pool() {
    let s = StakeStateV2::RewardsPool;
    let mut buf = vec![0u8; StakeStateV2::ACCOUNT_SIZE];
    s.serialize(&mut buf).unwrap();
    assert_eq!(buf[0], StakeStateV2::TAG_REWARDS_POOL);
    let back = StakeStateV2::deserialize(&buf).unwrap();
    assert_eq!(back, s);
}

#[test]
fn serialize_too_small_buffer_fails() {
    let s = StakeStateV2::Uninitialized;
    let mut tiny = vec![0u8; 0];
    let err = s.serialize(&mut tiny).unwrap_err();
    assert_eq!(err, ProgramError::AccountDataTooSmall);
}

#[test]
fn deserialize_invalid_tag_fails() {
    let mut buf = vec![0u8; StakeStateV2::ACCOUNT_SIZE];
    buf[0] = 255;
    let err = StakeStateV2::deserialize(&buf).unwrap_err();
    assert_eq!(err, ProgramError::InvalidAccountData);
}

#[test]
fn account_size_is_large_enough() {
    let want = 1 + core::mem::size_of::<Meta>() + core::mem::size_of::<Stake>() + 1;
    assert_eq!(StakeStateV2::ACCOUNT_SIZE, want);
}

#[test]
fn roundtrip_into_longer_data_keeps_trailing_zeros() {
    let s = StakeStateV2::Stake(sample_meta(), sample_stake(), StakeFlags::empty());
    let mut buf = vec![7u8; 300];
    s.serialize(&mut buf).unwrap();
    assert_eq!(buf.len(), 300);
    assert!(buf[194..].iter().all(|b| *b == 0));
    assert_eq!(StakeStateV2::deserialize(&buf).unwrap(), s);
}

#[test]
fn encoded_layout_is_little_endian() {
    let s = StakeStateV2::Initialized(sample_meta());
    let bytes = s.encode();
    assert_eq!(bytes.len(), 194);
    assert_eq!(&bytes[1..9], &1234u64.to_le_bytes());
}

#[test]
fn short_data_for_its_tag_is_invalid() {
    let mut buf = vec![0u8; 100];
    buf[0] = StakeStateV2::TAG_INITIALIZED;
    assert_eq!(StakeStateV2::deserialize(&buf).unwrap_err(), ProgramError::InvalidAccountData);
    let mut buf = vec![0u8; 150];
    buf[0] = StakeStateV2::TAG_STAKE;
    assert_eq!(StakeStateV2::deserialize(&buf).unwrap_err(), ProgramError::InvalidAccountData);
    assert_eq!(StakeStateV2::deserialize(&[]).unwrap_err(), ProgramError::InvalidAccountData);
}
