use pinocchio_stake::entrypoint::{
    dispatch_wire_instruction, process_instruction, AuthorizeCheckedWithSeedArgs, AuthorizeWithSeedArgs, InvokeContext,
    LockupArgs, LockupCheckedArgs, StakeInstruction,
};
use pinocchio_stake::error::ProgramError;
use pinocchio_stake::helpers::serialization::{deserialize_stake_state, serialize_stake_state};
use pinocchio_stake::instruction::process_authorize_checked_with_seed::seed_derivation_input;
use pinocchio_stake::instruction::process_withdraw::process_withdraw as withdraw_with_fixed_cooldown;
use pinocchio_stake::instruction::StakeInstruction as Kind;
use pinocchio_stake::pubkey::{Pubkey, DEFAULT_PUBKEY};
use pinocchio_stake::state::account_info::AccountInfo;
use pinocchio_stake::state::accounts::{Authorized, StakeAuthorize};
use pinocchio_stake::state::delegation::{Delegation, Stake};
use pinocchio_stake::state::stake_flag::StakeFlags;
use pinocchio_stake::state::stake_history::StakeHistoryEntry;
use pinocchio_stake::state::stake_state_v2::StakeStateV2;
use pinocchio_stake::state::state::{Lockup, Meta};
use pinocchio_stake::sysvars::{Clock, CLOCK_ID, RENT_ID};
use pinocchio_stake::ID;

const RESERVE: u64 = 2_241_120;
const EPOCH: u64 = 10;

fn key(b: u8) -> Pubkey {
    [b; 32]
}

fn account(key: Pubkey, owner: Pubkey, lamports: u64, data: Vec<u8>, is_signer: bool, is_writable: bool) -> AccountInfo {
    AccountInfo { key, owner, lamports, data, is_signer, is_writable }
}

fn signer(k: Pubkey) -> AccountInfo {
    account(k, DEFAULT_PUBKEY, 0, vec![], true, false)
}

fn rent_bytes() -> [u8; 17] {
    let mut data = [0u8; 17];
    data[..8].copy_from_slice(&3480u64.to_le_bytes());
    data[8..16].copy_from_slice(&2.0f64.to_bits().to_le_bytes());
    data[16] = 50;
    data
}

fn clock_account(epoch: u64) -> AccountInfo {
    let mut data = Vec::new();
    for w in [1000u64, 0, epoch, epoch + 1, 100] {
        data.extend_from_slice(&w.to_le_bytes());
    }
    account(CLOCK_ID, DEFAULT_PUBKEY, 1, data, false, false)
}

fn ctx() -> InvokeContext {
    InvokeContext {
        clock: Clock { slot: 1000, epoch_start_timestamp: 0, epoch: EPOCH, leader_schedule_epoch: EPOCH + 1, unix_timestamp: 100 },
        rent_exempt_reserve: RESERVE,
        first_status: StakeHistoryEntry::default(),
        second_status: StakeHistoryEntry::default(),
        seed_address: Ok(key(1)),
    }
}

fn meta(staker: Pubkey, withdrawer: Pubkey) -> Meta {
    Meta { rent_exempt_reserve: RESERVE, authorized: Authorized { staker, withdrawer }, lockup: Lockup::default() }
}

fn initialized(k: Pubkey, lamports: u64, staker: Pubkey, withdrawer: Pubkey) -> AccountInfo {
    account(k, ID, lamports, StakeStateV2::Initialized(meta(staker, withdrawer)).encode(), false, true)
}

fn state_of(a: &AccountInfo) -> StakeStateV2 {
    StakeStateV2::deserialize(&a.data).unwrap()
}

#[test]
fn decoded_get_minimum_delegation_returns_one() {
    let mut accounts = vec![];
    let r = process_instruction(&ID, &mut accounts, &[], Some(StakeInstruction::GetMinimumDelegation), &ctx());
    assert_eq!(r, Ok(Some(1)));
}

#[test]
fn decoded_instruction_takes_precedence_over_bytes() {
    let mut accounts = vec![];
    // The bytes name an unknown instruction, but the decoded value runs.
    let r = process_instruction(&ID, &mut accounts, &[99u8], Some(StakeInstruction::GetMinimumDelegation), &ctx());
    assert_eq!(r, Ok(Some(1)));
    let r = process_instruction(&ID, &mut accounts, &[13u8], Some(StakeInstruction::Redelegate), &ctx());
    assert_eq!(r, Err(ProgramError::InvalidInstructionData));
}

#[test]
fn decoded_initialize_and_set_lockup() {
    let (staker, withdrawer, custodian) = (key(1), key(2), key(3));
    let mut accounts = vec![
        account(key(10), ID, RESERVE, StakeStateV2::Uninitialized.encode(), false, true),
        account(RENT_ID, DEFAULT_PUBKEY, 1, rent_bytes().to_vec(), false, false),
    ];
    let ix = StakeInstruction::Initialize(
        Authorized { staker, withdrawer },
        Lockup { unix_timestamp: 0, epoch: 0, custodian: DEFAULT_PUBKEY },
    );
    dispatch_wire_instruction(&mut accounts, ix, &ctx()).unwrap();
    assert_eq!(state_of(&accounts[0]), StakeStateV2::Initialized(meta(staker, withdrawer)));

    let mut accounts = vec![accounts.remove(0), signer(withdrawer)];
    let args = LockupArgs { unix_timestamp: Some(55), epoch: None, custodian: Some(custodian) };
    dispatch_wire_instruction(&mut accounts, StakeInstruction::SetLockup(args), &ctx()).unwrap();
    match state_of(&accounts[0]) {
        StakeStateV2::Initialized(m) => {
            assert_eq!(m.lockup, Lockup { unix_timestamp: 55, epoch: 0, custodian });
            assert_eq!(m.authorized, Authorized { staker, withdrawer });
        }
        other => panic!("unexpected state: {:?}", other),
    }
}

#[test]
fn decoded_set_lockup_checked_applies_its_epoch() {
    let mut accounts = vec![initialized(key(10), RESERVE, key(1), key(2)), signer(key(2))];
    let ix = StakeInstruction::SetLockupChecked(LockupCheckedArgs { unix_timestamp: None, epoch: Some(3) });
    dispatch_wire_instruction(&mut accounts, ix, &ctx()).unwrap();
    let expected = Meta { lockup: Lockup { unix_timestamp: 0, epoch: 3, custodian: DEFAULT_PUBKEY }, ..meta(key(1), key(2)) };
    assert_eq!(state_of(&accounts[0]), StakeStateV2::Initialized(expected));

    // The same change through the instruction bytes: flags 0x02, then the epoch.
    let mut by_bytes = vec![initialized(key(10), RESERVE, key(1), key(2)), signer(key(2))];
    let mut data = vec![12u8, 0x02];
    data.extend_from_slice(&3u64.to_le_bytes());
    process_instruction(&ID, &mut by_bytes, &data, None, &ctx()).unwrap();
    assert_eq!(by_bytes[0].data, accounts[0].data);
}

#[test]
fn decoded_set_lockup_checked_matches_the_bytes_with_time_and_epoch() {
    let args = LockupCheckedArgs { unix_timestamp: Some(-7), epoch: Some(9) };
    let mut decoded = vec![initialized(key(10), RESERVE, key(1), key(2)), signer(key(2))];
    dispatch_wire_instruction(&mut decoded, StakeInstruction::SetLockupChecked(args), &ctx()).unwrap();
    let mut data = vec![12u8, 0x03];
    data.extend_from_slice(&(-7i64).to_le_bytes());
    data.extend_from_slice(&9u64.to_le_bytes());
    let mut by_bytes = vec![initialized(key(10), RESERVE, key(1), key(2)), signer(key(2))];
    process_instruction(&ID, &mut by_bytes, &data, None, &ctx()).unwrap();
    assert_eq!(by_bytes[0].data, decoded[0].data);
    let expected = Meta { lockup: Lockup { unix_timestamp: -7, epoch: 9, custodian: DEFAULT_PUBKEY }, ..meta(key(1), key(2)) };
    assert_eq!(state_of(&decoded[0]), StakeStateV2::Initialized(expected));
}

#[test]
fn decoded_authorize_with_seed_sets_the_new_staker() {
    let (staker, withdrawer, new_staker) = (key(1), key(2), key(3));
    let mut accounts =
        vec![initialized(key(10), RESERVE, staker, withdrawer), signer(key(5)), clock_account(EPOCH), signer(staker)];
    let ix = StakeInstruction::AuthorizeWithSeed(AuthorizeWithSeedArgs {
        new_authorized_pubkey: new_staker,
        stake_authorize: StakeAuthorize::Staker,
        authority_seed: String::from("seed-for-staker"),
        authority_owner: key(6),
    });
    dispatch_wire_instruction(&mut accounts, ix, &ctx()).unwrap();
    assert_eq!(state_of(&accounts[0]), StakeStateV2::Initialized(meta(new_staker, withdrawer)));
}

#[test]
fn decoded_authorize_checked_with_seed_takes_the_signing_account() {
    // The context's derived address is key(1), the current staker.
    let (staker, withdrawer, new_staker) = (key(1), key(2), key(3));
    let mut accounts =
        vec![initialized(key(10), RESERVE, staker, withdrawer), signer(key(5)), clock_account(EPOCH), signer(new_staker)];
    let ix = StakeInstruction::AuthorizeCheckedWithSeed(AuthorizeCheckedWithSeedArgs {
        stake_authorize: StakeAuthorize::Staker,
        authority_seed: String::from("seed"),
        authority_owner: key(6),
    });
    dispatch_wire_instruction(&mut accounts, ix, &ctx()).unwrap();
    assert_eq!(state_of(&accounts[0]), StakeStateV2::Initialized(meta(new_staker, withdrawer)));
}

#[test]
fn discriminants_name_the_instructions_in_order() {
    assert_eq!(Kind::from_discriminant(0), Ok(Kind::Initialize));
    assert_eq!(Kind::from_discriminant(4), Ok(Kind::Withdraw));
    assert_eq!(Kind::from_discriminant(13), Ok(Kind::GetMinimumDelegation));
    assert_eq!(Kind::from_discriminant(17), Ok(Kind::MoveLamports));
    assert_eq!(Kind::from_discriminant(18), Err(ProgramError::InvalidInstructionData));
}

fn withdraw_accounts(source: AccountInfo, authority: AccountInfo) -> Vec<AccountInfo> {
    vec![
        source,
        account(key(20), DEFAULT_PUBKEY, 0, vec![], false, true),
        clock_account(EPOCH),
        account(key(0xee), DEFAULT_PUBKEY, 1, vec![], false, false),
        authority,
    ]
}

fn deactivated_at(epoch: u64, withdrawer: Pubkey) -> AccountInfo {
    let stake = Stake {
        delegation: Delegation {
            voter_pubkey: key(8),
            stake: 1_000_000,
            activation_epoch: 1,
            deactivation_epoch: epoch,
            warmup_cooldown_rate: 0,
        },
        credits_observed: 0,
    };
    account(
        key(10),
        ID,
        RESERVE + 1_000_000,
        StakeStateV2::Stake(meta(key(1), withdrawer), stake, StakeFlags::empty()).encode(),
        false,
        true,
    )
}

#[test]
fn fixed_cooldown_withdrawal_waits_one_epoch_after_deactivation() {
    let withdrawer = key(2);
    // Deactivated this epoch: the stake is still held back.
    let mut accounts = withdraw_accounts(deactivated_at(EPOCH, withdrawer), signer(withdrawer));
    assert_eq!(withdraw_with_fixed_cooldown(&mut accounts, RESERVE + 1_000_000), Err(ProgramError::InsufficientFunds));
    // Deactivated an epoch ago: all of it may leave.
    let mut accounts = withdraw_accounts(deactivated_at(EPOCH - 1, withdrawer), signer(withdrawer));
    withdraw_with_fixed_cooldown(&mut accounts, RESERVE + 1_000_000).unwrap();
    assert_eq!(accounts[0].lamports, 0);
    assert_eq!(accounts[1].lamports, RESERVE + 1_000_000);
    assert_eq!(state_of(&accounts[0]), StakeStateV2::Uninitialized);
}

#[test]
fn fixed_cooldown_withdrawal_reports_lockup_with_its_own_code() {
    let (withdrawer, custodian) = (key(2), key(3));
    let locked = Meta { lockup: Lockup { unix_timestamp: 0, epoch: EPOCH + 1, custodian }, ..meta(key(1), withdrawer) };
    let source = account(key(10), ID, RESERVE + 10, StakeStateV2::Initialized(locked).encode(), false, true);
    let mut accounts = withdraw_accounts(source, signer(withdrawer));
    assert_eq!(withdraw_with_fixed_cooldown(&mut accounts, 10), Err(ProgramError::Custom(0x10)));
    accounts.push(signer(custodian));
    withdraw_with_fixed_cooldown(&mut accounts, 10).unwrap();
    assert_eq!(accounts[1].lamports, 10);
}

#[test]
fn fixed_cooldown_withdrawal_needs_the_withdraw_authority() {
    let source = initialized(key(10), RESERVE + 10, key(1), key(2));
    let mut accounts = withdraw_accounts(source, account(key(2), DEFAULT_PUBKEY, 0, vec![], false, false));
    assert_eq!(withdraw_with_fixed_cooldown(&mut accounts, 10), Err(ProgramError::MissingRequiredSignature));
    let mut short = vec![initialized(key(10), RESERVE + 10, key(1), key(2))];
    assert_eq!(withdraw_with_fixed_cooldown(&mut short, 10), Err(ProgramError::NotEnoughAccountKeys));
}

#[test]
fn load_and_store_through_the_account() {
    let mut a = account(key(10), ID, 0, vec![0u8; 194], false, true);
    assert_eq!(StakeStateV2::load_from_account_info(&a), Ok(StakeStateV2::Uninitialized));
    let s = StakeStateV2::Initialized(meta(key(1), key(2)));
    s.store_to_account_info(&mut a).unwrap();
    assert_eq!(StakeStateV2::load_from_account_info(&a), Ok(s));
    let mut small = account(key(10), ID, 0, vec![0u8; 10], false, true);
    assert_eq!(s.store_to_account_info(&mut small), Err(ProgramError::AccountDataTooSmall));
    assert_eq!(small.data, vec![0u8; 10]);
}

#[test]
fn structures_read_from_the_start_of_account_data() {
    let m = Meta {
        rent_exempt_reserve: 9,
        authorized: Authorized { staker: key(1), withdrawer: key(2) },
        lockup: Lockup { unix_timestamp: -3, epoch: 4, custodian: key(5) },
    };
    let encoded = StakeStateV2::Initialized(m).encode();
    let meta_bytes = account(key(10), ID, 0, encoded[1..121].to_vec(), false, false);
    assert_eq!(Meta::get_account_info(&meta_bytes), Ok(m));
    let auth_bytes = account(key(10), ID, 0, encoded[9..73].to_vec(), false, false);
    assert_eq!(Authorized::get_account_info(&auth_bytes), Ok(m.authorized));
    let lockup_bytes = account(key(10), ID, 0, encoded[73..121].to_vec(), false, false);
    assert_eq!(Lockup::get_account_info(&lockup_bytes), Ok(m.lockup));
    let short = account(key(10), ID, 0, vec![0u8; 47], false, false);
    assert_eq!(Lockup::get_account_info(&short), Err(ProgramError::InvalidAccountData));
    assert_eq!(Authorized::get_account_info(&short), Err(ProgramError::InvalidAccountData));
    assert_eq!(Meta::get_account_info(&short), Err(ProgramError::InvalidAccountData));
}

#[test]
fn serialization_helpers_decode_and_encode_account_data() {
    let mut a = initialized(key(10), RESERVE, key(1), key(2));
    assert_eq!(deserialize_stake_state(&a), Ok(StakeStateV2::Initialized(meta(key(1), key(2)))));
    serialize_stake_state(&mut a, &StakeStateV2::RewardsPool).unwrap();
    assert_eq!(deserialize_stake_state(&a), Ok(StakeStateV2::RewardsPool));
    assert_eq!(a.data.len(), StakeStateV2::ACCOUNT_SIZE);
    assert_eq!(a.data, StakeStateV2::RewardsPool.encode());

    let mut short = account(key(11), ID, 1, vec![1u8; 10], false, true);
    assert_eq!(serialize_stake_state(&mut short, &StakeStateV2::RewardsPool), Err(ProgramError::AccountDataTooSmall));
    assert_eq!(short.data, vec![1u8; 10]);
    assert_eq!(deserialize_stake_state(&short), Err(ProgramError::InvalidAccountData));
}

#[test]
fn seed_derivation_concatenates_base_seed_owner() {
    let out = seed_derivation_input(&key(1), b"abc", &key(2)).unwrap();
    assert_eq!(out.len(), 67);
    assert_eq!(&out[..32], &key(1));
    assert_eq!(&out[32..35], b"abc");
    assert_eq!(&out[35..], &key(2));
    assert_eq!(seed_derivation_input(&key(1), &[0u8; 33], &key(2)), Err(ProgramError::InvalidInstructionData));
}
