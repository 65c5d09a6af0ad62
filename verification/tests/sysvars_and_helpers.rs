use pinocchio_stake::error::{to_program_error, ProgramError, StakeError};
use pinocchio_stake::helpers::merge::{merge_delegation_stake_and_credits_observed, stake_weighted_credits_observed};
use pinocchio_stake::helpers::utils::{bytes_to_u64, get_minimum_delegation, next_account_info, relocate_lamports};
use pinocchio_stake::pubkey::{contains_pubkey, pubkey_eq, DEFAULT_PUBKEY};
use pinocchio_stake::state::account_info::AccountInfo;
use pinocchio_stake::state::delegation::{Delegation, Stake};
use pinocchio_stake::state::stake_history::{
    decode_stake_history_entry, stake_history_entry_offset, StakeHistory, StakeHistoryEntry,
};
use pinocchio_stake::sysvars::{clock_from_bytes, Clock, CLOCK_ID, RENT_ID};
use pinocchio_stake::vote_state::{parse_epoch_credits, EpochCreditsList};

fn account(key: [u8; 32], lamports: u64, data: Vec<u8>) -> AccountInfo {
    AccountInfo { key, owner: DEFAULT_PUBKEY, lamports, data, is_signer: false, is_writable: true }
}

#[test]
fn program_id_is_the_stake_program() {
    assert_eq!(pinocchio_stake::ID, pinocchio_pubkey::from_str("Stake11111111111111111111111111111111111111"));
    assert_eq!(pinocchio_stake::id(), pinocchio_stake::ID);
}

#[test]
fn sysvar_ids_are_the_runtime_ones() {
    assert_eq!(CLOCK_ID, pinocchio_pubkey::from_str("SysvarC1ock11111111111111111111111111111111"));
    assert_eq!(RENT_ID, pinocchio_pubkey::from_str("SysvarRent111111111111111111111111111111111"));
}

#[test]
fn clock_reads_the_five_words() {
    let mut data = Vec::new();
    for w in [11u64, 22, 33, 44] {
        data.extend_from_slice(&w.to_le_bytes());
    }
    data.extend_from_slice(&(-55i64).to_le_bytes());
    let clock = Clock::from_account_info(&account(CLOCK_ID, 1, data.clone())).unwrap();
    assert_eq!(clock.slot, 11);
    assert_eq!(clock.epoch_start_timestamp, 22);
    assert_eq!(clock.epoch, 33);
    assert_eq!(clock.leader_schedule_epoch, 44);
    assert_eq!(clock.unix_timestamp, -55);
    let short = data[..39].to_vec();
    assert_eq!(Clock::from_account_info(&account(CLOCK_ID, 1, short)).unwrap_err(), ProgramError::InvalidArgument);
    assert_eq!(Clock::from_account_info(&account(RENT_ID, 1, data)).unwrap_err(), ProgramError::InvalidArgument);
}

#[test]
fn each_stake_error_has_its_code() {
    let cases = [
        (StakeError::InvalidAuthorization, ProgramError::MissingRequiredSignature),
        (StakeError::InsufficientFunds, ProgramError::InsufficientFunds),
        (StakeError::InsufficientStake, ProgramError::Custom(0x10)),
        (StakeError::AlreadyDeactivated, ProgramError::Custom(0x11)),
        (StakeError::InsufficientDelegation, ProgramError::Custom(0x12)),
        (StakeError::VoteAddressMismatch, ProgramError::Custom(0x13)),
        (StakeError::MergeMismatch, ProgramError::Custom(0x14)),
        (StakeError::LockupInForce, ProgramError::Custom(0x15)),
        (StakeError::InsufficientReferenceVotes, ProgramError::Custom(0x16)),
        (StakeError::MinimumDelinquentEpochsForDeactivationNotMet, ProgramError::Custom(0x17)),
        (StakeError::TooSoonToRedelegate, ProgramError::Custom(0x18)),
    ];
    for (e, p) in cases {
        assert_eq!(to_program_error(e), p);
    }
}

fn stake_with(stake: u64, credits: u64) -> Stake {
    Stake {
        delegation: Delegation {
            voter_pubkey: DEFAULT_PUBKEY,
            stake,
            activation_epoch: 0,
            deactivation_epoch: u64::MAX,
            warmup_cooldown_rate: 0,
        },
        credits_observed: credits,
    }
}

#[test]
fn weighted_credits_round_up_and_stay_between() {
    assert_eq!(stake_weighted_credits_observed(&stake_with(100, 10), 100, 20), Some(15));
    assert_eq!(stake_weighted_credits_observed(&stake_with(1, 10), 2, 11), Some(11));
    assert_eq!(stake_weighted_credits_observed(&stake_with(3, 10), 1, 11), Some(11));
    assert_eq!(stake_weighted_credits_observed(&stake_with(5, 7), 9, 7), Some(7));
    assert_eq!(stake_weighted_credits_observed(&stake_with(0, 7), 0, 8), None);
    assert_eq!(stake_weighted_credits_observed(&stake_with(u64::MAX, 7), 1, 8), None);
}

#[test]
fn relocate_moves_lamports_or_refuses() {
    let mut accounts = vec![account([1; 32], 100, vec![]), account([2; 32], 5, vec![])];
    relocate_lamports(&mut accounts, 0, 1, 40).unwrap();
    assert_eq!((accounts[0].lamports, accounts[1].lamports), (60, 45));
    assert_eq!(relocate_lamports(&mut accounts, 0, 1, 61), Err(ProgramError::InsufficientFunds));
    let mut full = vec![account([1; 32], 100, vec![]), account([2; 32], u64::MAX, vec![])];
    assert_eq!(relocate_lamports(&mut full, 0, 1, 1), Err(ProgramError::ArithmeticOverflow));
}

#[test]
fn next_account_info_walks_the_accounts() {
    let accounts = vec![account([1; 32], 1, vec![]), account([2; 32], 2, vec![])];
    let mut next = 0usize;
    assert_eq!(next_account_info(&accounts, &mut next).unwrap().lamports, 1);
    assert_eq!(next_account_info(&accounts, &mut next).unwrap().lamports, 2);
    assert_eq!(next_account_info(&accounts, &mut next).unwrap_err(), ProgramError::NotEnoughAccountKeys);
    assert_eq!(next, 2);
}

#[test]
fn small_helpers() {
    assert_eq!(get_minimum_delegation(), 1);
    assert_eq!(bytes_to_u64(7u64.to_le_bytes()), 7);
    assert!(pubkey_eq(&[3; 32], &[3; 32]));
    assert!(!pubkey_eq(&[3; 32], &[4; 32]));
    assert!(contains_pubkey(&[[1; 32], [2; 32]], &[2; 32]));
    assert!(!contains_pubkey(&[[1; 32], [2; 32]], &[3; 32]));
}

#[test]
fn stake_history_offsets_and_entries() {
    assert_eq!(stake_history_entry_offset(0, 0), None);
    assert_eq!(stake_history_entry_offset(10, 9), Some(8));
    assert_eq!(stake_history_entry_offset(10, 7), Some(8 + 2 * 32));
    assert_eq!(stake_history_entry_offset(10, 10), None);
    assert_eq!(stake_history_entry_offset(1000, 487), None);
    assert_eq!(stake_history_entry_offset(1000, 488), Some(8 + 511 * 32));
    let mut buf = [0u8; 32];
    for (i, w) in [5u64, 6, 7, 8].iter().enumerate() {
        buf[i * 8..i * 8 + 8].copy_from_slice(&w.to_le_bytes());
    }
    assert_eq!(decode_stake_history_entry(&buf), (5, StakeHistoryEntry { effective: 6, activating: 7, deactivating: 8 }));
}

#[test]
fn epoch_credits_parse_and_keep_at_most_64() {
    let mut data = Vec::new();
    data.extend_from_slice(&70u32.to_le_bytes());
    for i in 0..70u64 {
        data.extend_from_slice(&i.to_le_bytes());
        data.extend_from_slice(&(i * 2).to_le_bytes());
        data.extend_from_slice(&(i * 3).to_le_bytes());
    }
    let list = parse_epoch_credits(&data).unwrap();
    assert_eq!(list.as_slice().len(), 64);
    assert_eq!(list.as_slice()[5], (5, 10, 15));
    assert!(parse_epoch_credits(&data[..data.len() - 1]).is_none());
    assert!(parse_epoch_credits(&[1, 0]).is_none());
}

#[test]
fn clock_from_bytes_reads_unaligned_data() {
    let mut data = vec![0xaau8];
    for w in [1u64, 2, 3, 4, 5] {
        data.extend_from_slice(&w.to_le_bytes());
    }
    let clock = clock_from_bytes(&data[1..]).unwrap();
    assert_eq!((clock.slot, clock.epoch_start_timestamp, clock.epoch), (1, 2, 3));
    assert_eq!((clock.leader_schedule_epoch, clock.unix_timestamp), (4, 5));
    assert_eq!(clock_from_bytes(&data[1..40]).unwrap_err(), ProgramError::InvalidArgument);
}

#[test]
fn epoch_credits_list_keeps_the_first_64_pushed() {
    let mut list = EpochCreditsList::new();
    for i in 0..70u64 {
        let kept = list.push((i, i * 10, i * 10 + 1));
        assert_eq!(kept, i < 64);
    }
    let expected: Vec<(u64, u64, u64)> = (0..64u64).map(|i| (i, i * 10, i * 10 + 1)).collect();
    assert_eq!(list.as_slice(), expected.as_slice());

    let mut short = EpochCreditsList::new();
    short.push((7, 8, 9));
    short.push((1, 2, 3));
    assert_eq!(short.as_slice(), &[(7, 8, 9), (1, 2, 3)]);
}

#[test]
fn relocate_refuses_an_overflow_without_writing() {
    let mut full = vec![account([1; 32], 100, vec![]), account([2; 32], u64::MAX, vec![])];
    assert_eq!(relocate_lamports(&mut full, 0, 1, 1), Err(ProgramError::ArithmeticOverflow));
    assert_eq!((full[0].lamports, full[1].lamports), (100, u64::MAX));
    let mut same = vec![account([1; 32], u64::MAX, vec![])];
    relocate_lamports(&mut same, 0, 0, 5).unwrap();
    assert_eq!(same[0].lamports, u64::MAX);
}

#[test]
fn merging_weights_credits_by_the_stake_before_the_merge() {
    let mut stake = stake_with(1, 0);
    merge_delegation_stake_and_credits_observed(&mut stake, 1, 10).unwrap();
    assert_eq!(stake.delegation.stake, 2);
    assert_eq!(stake.credits_observed, 5);

    let mut full = stake_with(u64::MAX, 3);
    assert_eq!(merge_delegation_stake_and_credits_observed(&mut full, 1, 3), Err(ProgramError::InsufficientFunds));
    assert_eq!(merge_delegation_stake_and_credits_observed(&mut full, 1, 4), Err(ProgramError::ArithmeticOverflow));
}

fn delegation_at(stake: u64, activation_epoch: u64, deactivation_epoch: u64) -> Delegation {
    Delegation { voter_pubkey: DEFAULT_PUBKEY, stake, activation_epoch, deactivation_epoch, warmup_cooldown_rate: 0 }
}

#[test]
fn stake_and_activating_without_history_cases() {
    assert_eq!(delegation_at(50, u64::MAX, u64::MAX).stake_and_activating_without_history(3), Some((50, 0)));
    assert_eq!(delegation_at(50, 4, 4).stake_and_activating_without_history(9), Some((0, 0)));
    assert_eq!(delegation_at(50, 4, u64::MAX).stake_and_activating_without_history(4), Some((0, 50)));
    assert_eq!(delegation_at(50, 4, u64::MAX).stake_and_activating_without_history(3), Some((0, 0)));
    assert_eq!(delegation_at(50, 4, u64::MAX).stake_and_activating_without_history(5), None);
}

#[test]
fn status_before_cooldown_cases() {
    let d = delegation_at(50, 4, 8);
    assert_eq!(d.status_before_cooldown(7, 30, 20), Some(StakeHistoryEntry { effective: 30, activating: 20, deactivating: 0 }));
    assert_eq!(d.status_before_cooldown(8, 30, 20), Some(StakeHistoryEntry { effective: 30, activating: 0, deactivating: 30 }));
    assert_eq!(d.status_before_cooldown(9, 30, 20), None);
}

#[test]
fn stake_history_holds_at_most_512_entries() {
    let mut history = StakeHistory::new();
    assert_eq!(history.len(), 0);
    assert_eq!(history.get(0), None);
    for i in 0..512u64 {
        history.push(StakeHistoryEntry { effective: i, activating: 0, deactivating: 0 }).unwrap();
    }
    assert_eq!(history.push(StakeHistoryEntry::default()), Err("StakeHistory is full"));
    assert_eq!(history.len(), 512);
    assert_eq!(history.get(7).map(|e| e.effective), Some(7));
    assert_eq!(history.get(512), None);
}
