use pinocchio_stake::entrypoint::{process_instruction, InvokeContext};
use pinocchio_stake::error::ProgramError;
use pinocchio_stake::pubkey::{Pubkey, DEFAULT_PUBKEY};
use pinocchio_stake::state::account_info::AccountInfo;
use pinocchio_stake::state::accounts::Authorized;
use pinocchio_stake::state::delegation::{Delegation, Stake};
use pinocchio_stake::state::stake_flag::StakeFlags;
use pinocchio_stake::state::stake_history::StakeHistoryEntry;
use pinocchio_stake::state::stake_state_v2::StakeStateV2;
use pinocchio_stake::state::state::{Lockup, Meta};
use pinocchio_stake::sysvars::{Clock, CLOCK_ID, RENT_ID};
use pinocchio_stake::ID;

const RESERVE: u64 = 2_241_120;
const EPOCH: u64 = 10;
/// Stands for the address derived from the base account with the seed.
const DERIVED: Pubkey = [0x5e; 32];

fn key(b: u8) -> Pubkey {
    [b; 32]
}

fn account(key: Pubkey, owner: Pubkey, lamports: u64, data: Vec<u8>, is_signer: bool, is_writable: bool) -> AccountInfo {
    AccountInfo { key, owner, lamports, data, is_signer, is_writable }
}

fn stake_account(k: Pubkey, lamports: u64, state: StakeStateV2) -> AccountInfo {
    account(k, ID, lamports, state.encode(), false, true)
}

fn signer(k: Pubkey) -> AccountInfo {
    account(k, DEFAULT_PUBKEY, 0, vec![], true, false)
}

fn clock_at(epoch: u64, unix_timestamp: i64) -> Clock {
    Clock { slot: 1000, epoch_start_timestamp: 0, epoch, leader_schedule_epoch: epoch + 1, unix_timestamp }
}

fn clock_account(clock: &Clock) -> AccountInfo {
    let mut data = Vec::new();
    data.extend_from_slice(&clock.slot.to_le_bytes());
    data.extend_from_slice(&clock.epoch_start_timestamp.to_le_bytes());
    data.extend_from_slice(&clock.epoch.to_le_bytes());
    data.extend_from_slice(&clock.leader_schedule_epoch.to_le_bytes());
    data.extend_from_slice(&clock.unix_timestamp.to_le_bytes());
    account(CLOCK_ID, DEFAULT_PUBKEY, 1, data, false, false)
}

fn rent_bytes() -> [u8; 17] {
    let mut data = [0u8; 17];
    data[..8].copy_from_slice(&3480u64.to_le_bytes());
    data[8..16].copy_from_slice(&2.0f64.to_bits().to_le_bytes());
    data[16] = 50;
    data
}

fn rent_account() -> AccountInfo {
    account(RENT_ID, DEFAULT_PUBKEY, 1, rent_bytes().to_vec(), false, false)
}

fn history_account() -> AccountInfo {
    account(key(0xee), DEFAULT_PUBKEY, 1, vec![], false, false)
}

fn context(first_status: StakeHistoryEntry, second_status: StakeHistoryEntry) -> InvokeContext {
    InvokeContext {
        clock: clock_at(EPOCH, 1_000_000),
        rent_exempt_reserve: RESERVE,
        first_status,
        second_status,
        seed_address: Ok(DERIVED),
    }
}

fn idle() -> InvokeContext {
    context(StakeHistoryEntry::default(), StakeHistoryEntry::default())
}

fn meta(staker: Pubkey, withdrawer: Pubkey) -> Meta {
    Meta { rent_exempt_reserve: RESERVE, authorized: Authorized { staker, withdrawer }, lockup: Lockup::default() }
}

fn delegated(voter: Pubkey, stake: u64, activation_epoch: u64, deactivation_epoch: u64) -> Stake {
    Stake {
        delegation: Delegation {
            voter_pubkey: voter,
            stake,
            activation_epoch,
            deactivation_epoch,
            warmup_cooldown_rate: 0.25f64.to_bits(),
        },
        credits_observed: 0,
    }
}

fn state_of(a: &AccountInfo) -> StakeStateV2 {
    StakeStateV2::deserialize(&a.data).unwrap()
}

fn total(accounts: &[AccountInfo]) -> u128 {
    accounts.iter().map(|a| a.lamports as u128).sum()
}

fn layout(accounts: &[AccountInfo]) -> Vec<(Pubkey, Pubkey, bool, bool, usize)> {
    accounts.iter().map(|a| (a.key, a.owner, a.is_signer, a.is_writable, a.data.len())).collect()
}

fn snapshot(accounts: &[AccountInfo]) -> Vec<(Pubkey, Pubkey, u64, Vec<u8>, bool, bool)> {
    accounts.iter().map(|a| (a.key, a.owner, a.lamports, a.data.clone(), a.is_signer, a.is_writable)).collect()
}

fn run(accounts: &mut Vec<AccountInfo>, data: &[u8], ctx: &InvokeContext) -> Result<Option<u64>, ProgramError> {
    let before = total(accounts);
    let shape = layout(accounts);
    let r = process_instruction(&ID, accounts, data, None, ctx);
    assert_eq!(total(accounts), before, "lamports are conserved");
    assert_eq!(layout(accounts), shape, "accounts keep their layout");
    r
}

fn with_amount(disc: u8, amount: u64) -> Vec<u8> {
    let mut d = vec![disc];
    d.extend_from_slice(&amount.to_le_bytes());
    d
}

fn initialized(k: Pubkey, lamports: u64, staker: Pubkey, withdrawer: Pubkey) -> AccountInfo {
    stake_account(k, lamports, StakeStateV2::Initialized(meta(staker, withdrawer)))
}

#[test]
fn smoke_get_minimum_delegation() {
    let mut accounts = vec![];
    let r = run(&mut accounts, &[13u8], &idle()).unwrap();
    let minimum = r.expect("program should return data");
    assert!(minimum >= 1, "minimum delegation should be >= 1, got {}", minimum);
    assert_eq!(minimum, 1);
}

#[test]
fn wrong_program_id_is_refused() {
    let mut accounts = vec![];
    let r = process_instruction(&key(9), &mut accounts, &[13u8], None, &idle());
    assert_eq!(r, Err(ProgramError::IncorrectProgramId));
}

#[test]
fn unknown_or_missing_discriminant_is_invalid_data() {
    let mut accounts = vec![];
    assert_eq!(run(&mut accounts, &[18u8], &idle()), Err(ProgramError::InvalidInstructionData));
    assert_eq!(run(&mut accounts, &[], &idle()), Err(ProgramError::InvalidInstructionData));
    assert_eq!(run(&mut accounts, &[15u8], &idle()), Err(ProgramError::InvalidInstructionData));
}

#[test]
fn amount_payload_must_be_eight_bytes() {
    let mut accounts = vec![];
    assert_eq!(run(&mut accounts, &[4u8, 1, 2, 3], &idle()), Err(ProgramError::InvalidInstructionData));
}

#[test]
fn initialize_records_authorities_lockup_and_reserve() {
    let staker = key(1);
    let withdrawer = key(2);
    let custodian = key(3);
    let mut data = vec![0u8];
    data.extend_from_slice(&staker);
    data.extend_from_slice(&withdrawer);
    data.extend_from_slice(&(-5i64).to_le_bytes());
    data.extend_from_slice(&7u64.to_le_bytes());
    data.extend_from_slice(&custodian);
    let mut accounts = vec![stake_account(key(10), RESERVE, StakeStateV2::Uninitialized), rent_account()];
    run(&mut accounts, &data, &idle()).unwrap();
    match state_of(&accounts[0]) {
        StakeStateV2::Initialized(m) => {
            assert_eq!(m.rent_exempt_reserve, RESERVE);
            assert_eq!(m.authorized, Authorized { staker, withdrawer });
            assert_eq!(m.lockup, Lockup { unix_timestamp: -5, epoch: 7, custodian });
        }
        other => panic!("unexpected state: {:?}", other),
    }
}

#[test]
fn initialize_below_reserve_fails() {
    let mut data = vec![0u8];
    data.extend_from_slice(&[0u8; 112]);
    let mut accounts = vec![stake_account(key(10), RESERVE - 1, StakeStateV2::Uninitialized), rent_account()];
    assert_eq!(run(&mut accounts, &data, &idle()), Err(ProgramError::InsufficientFunds));
}

#[test]
fn initialize_checked_takes_authorities_from_accounts() {
    let mut accounts = vec![
        stake_account(key(10), RESERVE + 5, StakeStateV2::Uninitialized),
        rent_account(),
        account(key(1), DEFAULT_PUBKEY, 0, vec![], false, false),
        signer(key(2)),
    ];
    run(&mut accounts, &[9u8], &idle()).unwrap();
    assert_eq!(state_of(&accounts[0]), StakeStateV2::Initialized(meta(key(1), key(2))));
}

#[test]
fn initialize_checked_needs_withdrawer_signature() {
    let mut accounts = vec![
        stake_account(key(10), RESERVE + 5, StakeStateV2::Uninitialized),
        rent_account(),
        account(key(1), DEFAULT_PUBKEY, 0, vec![], false, false),
        account(key(2), DEFAULT_PUBKEY, 0, vec![], false, false),
    ];
    assert_eq!(run(&mut accounts, &[9u8], &idle()), Err(ProgramError::MissingRequiredSignature));
}

#[test]
fn authorize_nonchecked_staker_success() {
    let (staker, withdrawer, new_staker) = (key(1), key(2), key(3));
    let clock = clock_at(EPOCH, 100);
    let mut accounts =
        vec![initialized(key(10), RESERVE, staker, withdrawer), clock_account(&clock), signer(staker)];
    let mut data = vec![1u8];
    data.extend_from_slice(&new_staker);
    data.push(0);
    run(&mut accounts, &data, &idle()).unwrap();
    match state_of(&accounts[0]) {
        StakeStateV2::Initialized(m) => {
            assert_eq!(m.authorized.staker, new_staker);
            assert_eq!(m.authorized.withdrawer, withdrawer);
        }
        other => panic!("unexpected state: {:?}", other),
    }
}

#[test]
fn authorize_nonchecked_withdrawer_success() {
    let (staker, withdrawer, new_withdrawer) = (key(1), key(2), key(4));
    let clock = clock_at(EPOCH, 100);
    let mut accounts =
        vec![initialized(key(10), RESERVE, staker, withdrawer), clock_account(&clock), signer(withdrawer)];
    let mut data = vec![1u8];
    data.extend_from_slice(&new_withdrawer);
    data.push(1);
    run(&mut accounts, &data, &idle()).unwrap();
    match state_of(&accounts[0]) {
        StakeStateV2::Initialized(m) => {
            assert_eq!(m.authorized.staker, staker);
            assert_eq!(m.authorized.withdrawer, new_withdrawer);
        }
        other => panic!("unexpected state: {:?}", other),
    }
}

#[test]
fn authorize_nonchecked_missing_old_signer_fails() {
    let (staker, withdrawer) = (key(1), key(2));
    let clock = clock_at(EPOCH, 100);
    let mut accounts = vec![initialized(key(10), RESERVE, staker, withdrawer), clock_account(&clock), signer(key(7))];
    let mut data = vec![1u8];
    data.extend_from_slice(&key(3));
    data.push(0);
    assert_eq!(run(&mut accounts, &data, &idle()), Err(ProgramError::MissingRequiredSignature));
}

#[test]
fn authorize_bad_role_byte_is_invalid_data() {
    let clock = clock_at(EPOCH, 100);
    let mut accounts = vec![initialized(key(10), RESERVE, key(1), key(2)), clock_account(&clock), signer(key(1))];
    let mut data = vec![1u8];
    data.extend_from_slice(&key(3));
    data.push(2);
    assert_eq!(run(&mut accounts, &data, &idle()), Err(ProgramError::InvalidInstructionData));
}

#[test]
fn authorize_checked_staker_success() {
    let (staker, withdrawer, new_staker) = (key(1), key(2), key(3));
    let clock = clock_at(EPOCH, 100);
    let mut accounts = vec![
        initialized(key(10), RESERVE, staker, withdrawer),
        clock_account(&clock),
        signer(staker),
        signer(new_staker),
    ];
    run(&mut accounts, &[10u8, 0], &idle()).unwrap();
    match state_of(&accounts[0]) {
        StakeStateV2::Initialized(m) => {
            assert_eq!(m.authorized.staker, new_staker);
            assert_eq!(m.authorized.withdrawer, withdrawer);
        }
        other => panic!("expected Initialized/Stake, got {:?}", other),
    }
}

fn seed_payload(new_authorized: Pubkey, role: u8, seed: &[u8], owner: Pubkey) -> Vec<u8> {
    let mut d = Vec::new();
    d.extend_from_slice(&new_authorized);
    d.push(role);
    d.push(seed.len() as u8);
    d.extend_from_slice(seed);
    d.extend_from_slice(&owner);
    d
}

#[test]
fn authorize_with_seed_staker_success() {
    let (staker, withdrawer, new_staker, base) = (key(1), key(2), key(3), key(5));
    let clock = clock_at(EPOCH, 100);
    let mut accounts =
        vec![initialized(key(10), RESERVE, staker, withdrawer), signer(base), clock_account(&clock), signer(staker)];
    let mut data = vec![8u8];
    data.extend_from_slice(&seed_payload(new_staker, 0, b"seed-for-staker", key(6)));
    run(&mut accounts, &data, &idle()).unwrap();
    match state_of(&accounts[0]) {
        StakeStateV2::Initialized(m) => {
            assert_eq!(m.authorized.staker, new_staker);
            assert_eq!(m.authorized.withdrawer, withdrawer);
        }
        other => panic!("unexpected state after authorize_with_seed: {:?}", other),
    }
}

#[test]
fn authorize_checked_with_seed_staker_success() {
    // The base account is the current staker and signs; the new staker signs.
    let (withdrawer, new_staker, base) = (key(2), key(3), key(5));
    let clock = clock_at(EPOCH, 100);
    let mut accounts =
        vec![initialized(key(10), RESERVE, base, withdrawer), signer(base), clock_account(&clock), signer(new_staker)];
    let mut data = vec![11u8];
    data.extend_from_slice(&seed_payload(new_staker, 0, b"seed-for-staker", key(6)));
    run(&mut accounts, &data, &idle()).unwrap();
    match state_of(&accounts[0]) {
        StakeStateV2::Initialized(m) => {
            assert_eq!(m.authorized.staker, new_staker);
            assert_eq!(m.authorized.withdrawer, withdrawer);
        }
        other => panic!("unexpected state after authorize_checked_with_seed: {:?}", other),
    }
}

#[test]
fn authorize_checked_with_seed_signs_for_the_derived_staker() {
    let (withdrawer, new_staker, base) = (key(2), key(3), key(5));
    let clock = clock_at(EPOCH, 100);
    let mut accounts =
        vec![initialized(key(10), RESERVE, DERIVED, withdrawer), signer(base), clock_account(&clock), signer(new_staker)];
    let mut data = vec![11u8];
    data.extend_from_slice(&seed_payload(new_staker, 0, b"seed-for-staker", key(6)));
    run(&mut accounts, &data, &idle()).unwrap();
    assert_eq!(state_of(&accounts[0]), StakeStateV2::Initialized(meta(new_staker, withdrawer)));
}

#[test]
fn authorize_checked_with_seed_base_does_not_stand_for_other_authorities() {
    // The staker is neither the base, a signer, nor the derived address.
    let (staker, withdrawer, new_staker, base) = (key(1), key(2), key(3), key(5));
    let clock = clock_at(EPOCH, 100);
    let mut accounts =
        vec![initialized(key(10), RESERVE, staker, withdrawer), signer(base), clock_account(&clock), signer(new_staker)];
    let before = snapshot(&accounts);
    let mut data = vec![11u8];
    data.extend_from_slice(&seed_payload(new_staker, 0, b"seed-for-staker", key(6)));
    assert_eq!(run(&mut accounts, &data, &idle()), Err(ProgramError::MissingRequiredSignature));
    assert_eq!(snapshot(&accounts), before);
}

#[test]
fn authorize_checked_with_seed_reports_a_failed_derivation() {
    let (new_staker, base) = (key(3), key(5));
    let clock = clock_at(EPOCH, 100);
    let mut accounts =
        vec![initialized(key(10), RESERVE, base, key(2)), signer(base), clock_account(&clock), signer(new_staker)];
    let mut data = vec![11u8];
    data.extend_from_slice(&seed_payload(new_staker, 0, b"seed-for-staker", key(6)));
    let ctx = InvokeContext { seed_address: Err(ProgramError::InvalidInstructionData), ..idle() };
    assert_eq!(run(&mut accounts, &data, &ctx), Err(ProgramError::InvalidInstructionData));
}

#[test]
fn seed_longer_than_32_bytes_is_invalid_data() {
    let clock = clock_at(EPOCH, 100);
    let mut accounts = vec![initialized(key(10), RESERVE, key(1), key(2)), signer(key(5)), clock_account(&clock)];
    let mut data = vec![8u8];
    data.extend_from_slice(&seed_payload(key(3), 0, &[7u8; 33], key(6)));
    assert_eq!(run(&mut accounts, &data, &idle()), Err(ProgramError::InvalidInstructionData));
}

fn vote_account(k: Pubkey, credits: u64) -> AccountInfo {
    let mut data = vec![0u8; 80];
    data[72..80].copy_from_slice(&credits.to_le_bytes());
    account(k, DEFAULT_PUBKEY, 1, data, false, false)
}

#[test]
fn delegate_stake_success_sets_state_and_amount() {
    let (staker, withdrawer, vote) = (key(1), key(2), key(8));
    let extra = 2_000_000;
    let clock = clock_at(EPOCH, 100);
    let mut accounts = vec![
        initialized(key(10), RESERVE + extra, staker, withdrawer),
        vote_account(vote, 77),
        clock_account(&clock),
        history_account(),
        account(key(0xcc), DEFAULT_PUBKEY, 1, vec![], false, false),
        signer(staker),
    ];
    run(&mut accounts, &[2u8], &idle()).unwrap();
    match state_of(&accounts[0]) {
        StakeStateV2::Stake(m, s, _) => {
            assert_eq!(s.delegation.stake, extra, "delegated stake equals extra lamports above reserve");
            assert_eq!(s.delegation.voter_pubkey, vote);
            assert_eq!(s.delegation.activation_epoch, EPOCH);
            assert_eq!(s.delegation.deactivation_epoch, u64::MAX);
            assert_eq!(s.credits_observed, 77);
            assert_eq!(m.authorized.staker, staker);
            assert_eq!(m.authorized.withdrawer, withdrawer);
        }
        other => panic!("expected Stake state, got {:?}", other),
    }
}

fn active_stake_account(k: Pubkey, extra: u64, staker: Pubkey, voter: Pubkey) -> AccountInfo {
    stake_account(
        k,
        RESERVE + extra,
        StakeStateV2::Stake(meta(staker, key(2)), delegated(voter, extra, 1, u64::MAX), StakeFlags::empty()),
    )
}

#[test]
fn deactivate_success_after_delegate() {
    let staker = key(1);
    let clock = clock_at(EPOCH, 100);
    let mut accounts = vec![active_stake_account(key(10), 5_000_000, staker, key(8)), clock_account(&clock), signer(staker)];
    run(&mut accounts, &[5u8], &idle()).unwrap();
    match state_of(&accounts[0]) {
        StakeStateV2::Stake(_, s, _) => assert_eq!(s.delegation.deactivation_epoch, EPOCH, "deactivation epoch should match clock"),
        other => panic!("expected Stake state, got {:?}", other),
    }
    // A second deactivation is refused as already deactivated.
    assert_eq!(run(&mut accounts, &[5u8], &idle()), Err(ProgramError::Custom(0x11)));
}

#[test]
fn deactivate_missing_staker_signature_fails() {
    let clock = clock_at(EPOCH, 100);
    let mut accounts = vec![active_stake_account(key(10), 5_000_000, key(1), key(8)), clock_account(&clock), signer(key(9))];
    assert_eq!(run(&mut accounts, &[5u8], &idle()), Err(ProgramError::MissingRequiredSignature));
}

fn epoch_credits_account(k: Pubkey, epochs: &[u64]) -> AccountInfo {
    let mut data = Vec::new();
    data.extend_from_slice(&(epochs.len() as u32).to_le_bytes());
    for (i, e) in epochs.iter().enumerate() {
        data.extend_from_slice(&e.to_le_bytes());
        data.extend_from_slice(&(i as u64 + 1).to_le_bytes());
        data.extend_from_slice(&(i as u64).to_le_bytes());
    }
    account(k, DEFAULT_PUBKEY, 1, data, false, false)
}

#[test]
fn deactivate_delinquent_happy_path() {
    let delinquent = key(8);
    let mut accounts = vec![
        active_stake_account(key(10), 1_000_000, key(1), delinquent),
        epoch_credits_account(delinquent, &[1, 2]),
        epoch_credits_account(key(9), &[6, 7, 8, 9, 10]),
    ];
    run(&mut accounts, &[14u8], &idle()).unwrap();
    match state_of(&accounts[0]) {
        StakeStateV2::Stake(_, s, _) => assert_eq!(s.delegation.deactivation_epoch, EPOCH),
        other => panic!("expected Stake state, got {:?}", other),
    }
}

#[test]
fn deactivate_delinquent_needs_a_reference_voting_every_epoch() {
    let delinquent = key(8);
    let mut accounts = vec![
        active_stake_account(key(10), 1_000_000, key(1), delinquent),
        epoch_credits_account(delinquent, &[1, 2]),
        epoch_credits_account(key(9), &[6, 7, 9, 10]),
    ];
    assert_eq!(run(&mut accounts, &[14u8], &idle()), Err(ProgramError::Custom(0x16)));
}

#[test]
fn merge_inactive_into_inactive_succeeds_and_drains_source() {
    let staker = key(1);
    let clock = clock_at(EPOCH, 100);
    let mut accounts = vec![
        initialized(key(10), RESERVE + 1_000_000, staker, key(2)),
        initialized(key(11), RESERVE + 500_000, staker, key(2)),
        clock_account(&clock),
        history_account(),
        signer(staker),
    ];
    let (dst_before, src_before) = (accounts[0].lamports, accounts[1].lamports);
    run(&mut accounts, &[7u8], &idle()).unwrap();
    assert_eq!(dst_before + src_before, accounts[0].lamports);
    assert_eq!(accounts[1].lamports, 0);
    assert_eq!(state_of(&accounts[1]), StakeStateV2::Uninitialized);
}

#[test]
fn merge_missing_staker_signature_fails() {
    let clock = clock_at(EPOCH, 100);
    let mut accounts = vec![
        initialized(key(10), RESERVE + 1_000_000, key(1), key(2)),
        initialized(key(11), RESERVE + 500_000, key(1), key(2)),
        clock_account(&clock),
        history_account(),
    ];
    assert!(run(&mut accounts, &[7u8], &idle()).is_err());
}

#[test]
fn merge_authority_mismatch_fails() {
    let clock = clock_at(EPOCH, 100);
    let mut accounts = vec![
        initialized(key(10), RESERVE + 1_000_000, key(1), key(2)),
        initialized(key(11), RESERVE + 500_000, key(3), key(2)),
        clock_account(&clock),
        history_account(),
        signer(key(1)),
    ];
    assert_eq!(run(&mut accounts, &[7u8], &idle()), Err(ProgramError::InvalidAccountData));
}

#[test]
fn move_lamports_from_inactive_source() {
    let staker = key(1);
    let amount = 1_000_000;
    let mut accounts = vec![
        initialized(key(10), RESERVE + 3_000_000, staker, key(2)),
        initialized(key(11), RESERVE, staker, key(2)),
        signer(staker),
    ];
    let (src_before, dst_before) = (accounts[0].lamports, accounts[1].lamports);
    run(&mut accounts, &with_amount(17, amount), &idle()).unwrap();
    assert_eq!(src_before - amount, accounts[0].lamports);
    assert_eq!(dst_before + amount, accounts[1].lamports);
}

#[test]
fn move_lamports_beyond_free_lamports_fails() {
    let staker = key(1);
    let mut accounts = vec![
        initialized(key(10), RESERVE + 3_000_000, staker, key(2)),
        initialized(key(11), RESERVE, staker, key(2)),
        signer(staker),
    ];
    assert_eq!(run(&mut accounts, &with_amount(17, 3_000_001), &idle()), Err(ProgramError::InvalidArgument));
}

fn fully_active(stake: u64) -> StakeHistoryEntry {
    StakeHistoryEntry { effective: stake, activating: 0, deactivating: 0 }
}

#[test]
fn move_stake_between_active_same_vote() {
    let (staker, vote) = (key(1), key(8));
    let (source_extra, dest_extra, amount) = (3_000_000, 1_000_000, 500_000);
    let mut accounts = vec![
        active_stake_account(key(10), source_extra, staker, vote),
        active_stake_account(key(11), dest_extra, staker, vote),
        signer(staker),
    ];
    let ctx = context(fully_active(source_extra), fully_active(dest_extra));
    let (src_before, dst_before) = (accounts[0].lamports, accounts[1].lamports);
    run(&mut accounts, &with_amount(16, amount), &ctx).unwrap();
    assert_eq!(src_before - amount, accounts[0].lamports);
    assert_eq!(dst_before + amount, accounts[1].lamports);
    match (state_of(&accounts[0]), state_of(&accounts[1])) {
        (StakeStateV2::Stake(_, s, _), StakeStateV2::Stake(_, d, _)) => {
            assert_eq!(s.delegation.stake, source_extra - amount);
            assert_eq!(d.delegation.stake, dest_extra + amount);
            assert_eq!(s.delegation.voter_pubkey, vote);
            assert_eq!(d.delegation.voter_pubkey, vote);
        }
        other => panic!("unexpected states: {:?}", other),
    }
}

#[test]
fn move_stake_to_inactive_destination_success() {
    let (staker, vote) = (key(1), key(8));
    let (source_extra, amount) = (2_000_000, 400_000);
    let mut accounts = vec![
        active_stake_account(key(10), source_extra, staker, vote),
        initialized(key(11), RESERVE, staker, key(2)),
        signer(staker),
    ];
    let ctx = context(fully_active(source_extra), StakeHistoryEntry::default());
    run(&mut accounts, &with_amount(16, amount), &ctx).unwrap();
    match state_of(&accounts[1]) {
        StakeStateV2::Stake(_, s, _) => {
            assert_eq!(s.delegation.stake, amount);
            assert_eq!(s.delegation.voter_pubkey, vote);
        }
        other => panic!("destination should be Stake after move: {:?}", other),
    }
}

#[test]
fn move_stake_vote_mismatch_fails() {
    let staker = key(1);
    let mut accounts = vec![
        active_stake_account(key(10), 2_000_000, staker, key(8)),
        active_stake_account(key(11), 1_000_000, staker, key(9)),
        signer(staker),
    ];
    let ctx = context(fully_active(2_000_000), fully_active(1_000_000));
    assert_eq!(run(&mut accounts, &with_amount(16, 100_000), &ctx), Err(ProgramError::Custom(0x13)));
}

#[test]
fn move_stake_zero_amount_fails() {
    let staker = key(1);
    let mut accounts = vec![
        active_stake_account(key(10), 1_000_000, staker, key(8)),
        initialized(key(11), RESERVE, staker, key(2)),
        signer(staker),
    ];
    let ctx = context(fully_active(1_000_000), StakeHistoryEntry::default());
    assert_eq!(run(&mut accounts, &with_amount(16, 0), &ctx), Err(ProgramError::InvalidArgument));
}

#[test]
fn split_from_initialized_into_uninitialized() {
    let staker = key(1);
    let amount = 2 * RESERVE;
    let mut accounts = vec![
        initialized(key(10), RESERVE + 3 * RESERVE, staker, key(2)),
        stake_account(key(11), 0, StakeStateV2::Uninitialized),
        signer(staker),
    ];
    run(&mut accounts, &with_amount(3, amount), &idle()).unwrap();
    assert_eq!(accounts[0].lamports, 2 * RESERVE);
    assert_eq!(accounts[1].lamports, amount);
    assert_eq!(state_of(&accounts[1]), StakeStateV2::Initialized(meta(staker, key(2))));
}

#[test]
fn split_into_a_foreign_account_fails() {
    let staker = key(1);
    let mut accounts = vec![
        initialized(key(10), 4 * RESERVE, staker, key(2)),
        account(key(11), key(99), 0, StakeStateV2::Uninitialized.encode(), false, true),
        signer(staker),
    ];
    assert_eq!(run(&mut accounts, &with_amount(3, RESERVE), &idle()), Err(ProgramError::InvalidAccountOwner));
}

fn withdraw_accounts(source: AccountInfo, authority: AccountInfo) -> Vec<AccountInfo> {
    let clock = clock_at(EPOCH, 100);
    vec![source, account(key(20), DEFAULT_PUBKEY, 0, vec![], false, true), clock_account(&clock), history_account(), authority]
}

#[test]
fn withdraw_uninitialized_partial() {
    let mut source = stake_account(key(10), 1_000_000, StakeStateV2::Uninitialized);
    source.is_signer = true;
    let mut accounts = withdraw_accounts(source, signer(key(10)));
    run(&mut accounts, &with_amount(4, 500_000), &idle()).unwrap();
    assert_eq!(accounts[0].lamports, 500_000);
    assert_eq!(accounts[1].lamports, 500_000);
}

#[test]
fn withdraw_uninitialized_needs_its_own_signature() {
    let source = stake_account(key(10), 1_000_000, StakeStateV2::Uninitialized);
    let mut accounts = withdraw_accounts(source, signer(key(2)));
    assert_eq!(run(&mut accounts, &with_amount(4, 500_000), &idle()), Err(ProgramError::MissingRequiredSignature));
}

#[test]
fn withdraw_initialized_partial_respects_reserve() {
    let withdrawer = key(2);
    let mut accounts = withdraw_accounts(initialized(key(10), RESERVE + 1_500_000, key(1), withdrawer), signer(withdrawer));
    run(&mut accounts, &with_amount(4, 1_500_000), &idle()).unwrap();
    assert!(accounts[0].lamports >= RESERVE, "stake must retain at least reserve");
    let mut again = withdraw_accounts(initialized(key(10), RESERVE + 1_500_000, key(1), withdrawer), signer(withdrawer));
    assert_eq!(run(&mut again, &with_amount(4, 1_500_001), &idle()), Err(ProgramError::InsufficientFunds));
}

#[test]
fn withdraw_initialized_full_closes_account() {
    let withdrawer = key(2);
    let mut accounts = withdraw_accounts(initialized(key(10), RESERVE + 10, key(1), withdrawer), signer(withdrawer));
    run(&mut accounts, &with_amount(4, RESERVE + 10), &idle()).unwrap();
    assert_eq!(accounts[0].lamports, 0);
    assert_eq!(state_of(&accounts[0]), StakeStateV2::Uninitialized);
}

#[test]
fn withdraw_stake_active_fails_partial() {
    let withdrawer = key(2);
    let source = active_stake_account(key(10), 2_000_000, key(1), key(8));
    let mut accounts = withdraw_accounts(source, signer(withdrawer));
    let ctx = context(fully_active(2_000_000), StakeHistoryEntry::default());
    assert!(run(&mut accounts, &with_amount(4, 1000), &ctx).is_err(), "Withdraw should fail while stake is active");
}

#[test]
fn withdraw_stake_after_deactivate_full_succeeds() {
    let withdrawer = key(2);
    let source = stake_account(
        key(10),
        RESERVE + 2_000_000,
        StakeStateV2::Stake(meta(key(1), withdrawer), delegated(key(8), 2_000_000, 1, 5), StakeFlags::empty()),
    );
    let mut accounts = withdraw_accounts(source, signer(withdrawer));
    run(&mut accounts, &with_amount(4, RESERVE + 2_000_000), &idle()).unwrap();
    assert_eq!(accounts[0].lamports, 0);
    assert_eq!(state_of(&accounts[0]), StakeStateV2::Uninitialized);
}

#[test]
fn withdraw_refused_under_lockup_unless_custodian_signs() {
    let (withdrawer, custodian) = (key(2), key(3));
    let locked = Meta {
        lockup: Lockup { unix_timestamp: 0, epoch: EPOCH + 5, custodian },
        ..meta(key(1), withdrawer)
    };
    let source = stake_account(key(10), RESERVE + 100, StakeStateV2::Initialized(locked));
    let mut accounts = withdraw_accounts(source, signer(withdrawer));
    assert_eq!(run(&mut accounts, &with_amount(4, 100), &idle()), Err(ProgramError::Custom(0x15)));
    accounts.push(signer(custodian));
    run(&mut accounts, &with_amount(4, 100), &idle()).unwrap();
    assert_eq!(accounts[1].lamports, 100);
}

#[test]
fn set_lockup_checked_updates_epoch_with_withdrawer_signature() {
    let (staker, withdrawer) = (key(1), key(2));
    let mut accounts = vec![initialized(key(10), RESERVE, staker, withdrawer), signer(withdrawer)];
    let mut data = vec![12u8, 0x02];
    data.extend_from_slice(&5u64.to_le_bytes());
    run(&mut accounts, &data, &idle()).unwrap();
    match state_of(&accounts[0]) {
        StakeStateV2::Initialized(m) => {
            assert_eq!(m.lockup.epoch, 5);
            assert_eq!(m.lockup.custodian, DEFAULT_PUBKEY);
            assert_eq!(m.authorized.staker, staker);
            assert_eq!(m.authorized.withdrawer, withdrawer);
        }
        other => panic!("unexpected stake state after SetLockupChecked: {:?}", other),
    }
}

#[test]
fn set_lockup_checked_custodian_in_force() {
    let (withdrawer, custodian) = (key(2), key(3));
    let future_epoch = EPOCH + 10;
    let mut accounts = vec![initialized(key(10), RESERVE, key(1), withdrawer), signer(withdrawer), signer(custodian)];
    let mut data = vec![12u8, 0x02];
    data.extend_from_slice(&future_epoch.to_le_bytes());
    run(&mut accounts, &data, &idle()).unwrap();
    let m = match state_of(&accounts[0]) {
        StakeStateV2::Initialized(m) => m,
        other => panic!("unexpected state: {:?}", other),
    };
    assert_eq!(m.lockup.epoch, future_epoch);
    assert_eq!(m.lockup.custodian, custodian);

    let new_ts: i64 = 1234567890;
    let mut data2 = vec![12u8, 0x01];
    data2.extend_from_slice(&new_ts.to_le_bytes());
    let mut accounts2 = vec![accounts.remove(0), signer(custodian)];
    run(&mut accounts2, &data2, &idle()).unwrap();
    match state_of(&accounts2[0]) {
        StakeStateV2::Initialized(m) => assert_eq!(m.lockup.unix_timestamp, new_ts),
        other => panic!("unexpected state after custodian update: {:?}", other),
    }
}

#[test]
fn set_lockup_checked_without_payload_is_invalid_data() {
    let mut accounts = vec![initialized(key(10), RESERVE, key(1), key(2)), signer(key(2))];
    assert_eq!(run(&mut accounts, &[12u8], &idle()), Err(ProgramError::InvalidInstructionData));
}

fn delegated_stake(a: &AccountInfo) -> u64 {
    match state_of(a) {
        StakeStateV2::Stake(_, s, _) => s.delegation.stake,
        _ => 0,
    }
}

#[test]
fn split_from_delegated_never_creates_stake() {
    let staker = key(1);
    let stake = 5_000_000;
    let mut accounts = vec![
        active_stake_account(key(10), stake, staker, key(8)),
        stake_account(key(11), 0, StakeStateV2::Uninitialized),
        signer(staker),
    ];
    run(&mut accounts, &with_amount(3, RESERVE + 2_000_000), &idle()).unwrap();
    assert_eq!(accounts[0].lamports, 3_000_000);
    assert_eq!(accounts[1].lamports, RESERVE + 2_000_000);
    assert_eq!(delegated_stake(&accounts[0]), stake - (RESERVE + 2_000_000));
    assert_eq!(delegated_stake(&accounts[1]), 2_000_000);
    assert!(delegated_stake(&accounts[0]) + delegated_stake(&accounts[1]) <= stake);
}

#[test]
fn split_of_everything_leaves_the_source_uninitialized() {
    let staker = key(1);
    let mut accounts = vec![
        initialized(key(10), 3 * RESERVE, staker, key(2)),
        stake_account(key(11), 0, StakeStateV2::Uninitialized),
        signer(staker),
    ];
    run(&mut accounts, &with_amount(3, 3 * RESERVE), &idle()).unwrap();
    assert_eq!(accounts[0].lamports, 0);
    assert_eq!(state_of(&accounts[0]), StakeStateV2::Uninitialized);
    assert_eq!(state_of(&accounts[1]), StakeStateV2::Initialized(meta(staker, key(2))));
}

#[test]
fn move_lamports_refused_after_the_move_leaves_the_accounts_as_they_were() {
    // The destination lacks part of its reserve, so the balances after the
    // move fail their check and the move is undone.
    let staker = key(1);
    let mut accounts = vec![
        initialized(key(10), RESERVE + 3_000_000, staker, key(2)),
        initialized(key(11), RESERVE - 100_000, staker, key(2)),
        signer(staker),
    ];
    let before = snapshot(&accounts);
    assert_eq!(run(&mut accounts, &with_amount(17, 50_000), &idle()), Err(ProgramError::InvalidArgument));
    assert_eq!(snapshot(&accounts), before);
}

#[test]
fn withdraw_refusal_leaves_the_accounts_as_they_were() {
    let withdrawer = key(2);
    let source = active_stake_account(key(10), 2_000_000, key(1), key(8));
    let mut accounts = withdraw_accounts(source, signer(withdrawer));
    let before = snapshot(&accounts);
    let ctx = context(fully_active(2_000_000), StakeHistoryEntry::default());
    assert_eq!(run(&mut accounts, &with_amount(4, 1000), &ctx), Err(ProgramError::InsufficientFunds));
    assert_eq!(snapshot(&accounts), before);
}

fn set_lockup_payload(unix_timestamp: Option<i64>, epoch: Option<u64>, custodian: Option<Pubkey>) -> Vec<u8> {
    let mut d = vec![6u8];
    d.push(unix_timestamp.is_some() as u8);
    d.extend_from_slice(&unix_timestamp.unwrap_or(0).to_le_bytes());
    d.push(epoch.is_some() as u8);
    d.extend_from_slice(&epoch.unwrap_or(0).to_le_bytes());
    d.push(custodian.is_some() as u8);
    d.extend_from_slice(&custodian.unwrap_or(DEFAULT_PUBKEY));
    d
}

#[test]
fn set_lockup_reads_the_fixed_layout() {
    let (withdrawer, custodian) = (key(2), key(3));
    let mut accounts = vec![initialized(key(10), RESERVE, key(1), withdrawer), signer(withdrawer)];
    let data = set_lockup_payload(None, Some(7), Some(custodian));
    assert_eq!(data.len(), 52);
    run(&mut accounts, &data, &idle()).unwrap();
    match state_of(&accounts[0]) {
        StakeStateV2::Initialized(m) => assert_eq!(m.lockup, Lockup { unix_timestamp: 0, epoch: 7, custodian }),
        other => panic!("unexpected stake state after SetLockup: {:?}", other),
    }
    let short = &data[..51];
    assert_eq!(run(&mut accounts, short, &idle()), Err(ProgramError::InvalidInstructionData));
}

fn delegate_accounts(stake: AccountInfo, vote: Pubkey, staker: Pubkey) -> Vec<AccountInfo> {
    vec![
        stake,
        vote_account(vote, 77),
        clock_account(&clock_at(EPOCH, 100)),
        history_account(),
        account(key(0xcc), DEFAULT_PUBKEY, 1, vec![], false, false),
        signer(staker),
    ]
}

#[test]
fn redelegating_an_active_stake_to_its_voter_in_its_deactivation_epoch_rescinds() {
    let (staker, vote) = (key(1), key(8));
    let deactivating = delegated(vote, 2_000_000, 1, EPOCH);
    let source = stake_account(key(10), RESERVE + 2_000_000, StakeStateV2::Stake(meta(staker, key(2)), deactivating, StakeFlags::empty()));
    let mut accounts = delegate_accounts(source, vote, staker);
    run(&mut accounts, &[2u8], &context(fully_active(2_000_000), StakeHistoryEntry::default())).unwrap();
    let rescinded = Stake { delegation: Delegation { deactivation_epoch: u64::MAX, ..deactivating.delegation }, ..deactivating };
    assert_eq!(state_of(&accounts[0]), StakeStateV2::Stake(meta(staker, key(2)), rescinded, StakeFlags::empty()));
}

#[test]
fn redelegating_an_active_stake_is_too_soon() {
    let (staker, vote) = (key(1), key(8));
    let source = active_stake_account(key(10), 2_000_000, staker, vote);
    let mut accounts = delegate_accounts(source, key(9), staker);
    let before = snapshot(&accounts);
    let ctx = context(fully_active(2_000_000), StakeHistoryEntry::default());
    assert_eq!(run(&mut accounts, &[2u8], &ctx), Err(ProgramError::Custom(0x18)));
    assert_eq!(snapshot(&accounts), before);

    // The same voter outside the deactivation epoch is too soon as well.
    let mut accounts = delegate_accounts(active_stake_account(key(10), 2_000_000, staker, vote), vote, staker);
    assert_eq!(run(&mut accounts, &[2u8], &ctx), Err(ProgramError::Custom(0x18)));
}

#[test]
fn redelegating_an_inactive_stake_starts_afresh() {
    let (staker, vote) = (key(1), key(8));
    let inactive = delegated(vote, 2_000_000, 1, 5);
    let source = stake_account(key(10), RESERVE + 3_000_000, StakeStateV2::Stake(meta(staker, key(2)), inactive, StakeFlags::empty()));
    let mut accounts = delegate_accounts(source, vote, staker);
    run(&mut accounts, &[2u8], &idle()).unwrap();
    match state_of(&accounts[0]) {
        StakeStateV2::Stake(_, s, _) => {
            assert_eq!(s.delegation.stake, 3_000_000);
            assert_eq!(s.delegation.voter_pubkey, vote);
            assert_eq!(s.delegation.activation_epoch, EPOCH);
            assert_eq!(s.delegation.deactivation_epoch, u64::MAX);
            assert_eq!(s.credits_observed, 77);
        }
        other => panic!("expected Stake state, got {:?}", other),
    }
}
