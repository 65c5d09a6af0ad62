use pinocchio_stake::instruction::deactivate_delinquent::{acceptable_reference_epoch_credits_bytes, last_vote_epoch_bytes};

fn build_epoch_credits_bytes(list: &[(u64, u64, u64)]) -> Vec<u8> {
    let mut out = Vec::with_capacity(4 + list.len() * 24);
    out.extend_from_slice(&(list.len() as u32).to_le_bytes());
    for &(e, c, p) in list {
        out.extend_from_slice(&e.to_le_bytes());
        out.extend_from_slice(&c.to_le_bytes());
        out.extend_from_slice(&p.to_le_bytes());
    }
    out
}

#[test]
fn reference_has_all_last_n_epochs() {
    // current = 100, need epochs 100..=96 present
    let current = 100;
    let bytes = build_epoch_credits_bytes(&[(96, 1, 0), (97, 2, 1), (98, 3, 2), (99, 4, 3), (100, 5, 4)]);
    assert!(acceptable_reference_epoch_credits_bytes(&bytes, current, 5).unwrap());
}

#[test]
fn reference_missing_one_epoch_fails() {
    // Missing 98 in the last 5 => should fail
    let current = 100;
    let bytes = build_epoch_credits_bytes(&[(96, 1, 0), (97, 2, 1), (99, 4, 3), (100, 5, 4)]);
    assert!(!acceptable_reference_epoch_credits_bytes(&bytes, current, 5).unwrap());
}

#[test]
fn delinquent_if_last_vote_older_than_n() {
    // current=100, N=5 => min_epoch = 95; last=94 => eligible
    let current = 100;
    let bytes = build_epoch_credits_bytes(&[(94, 5, 0)]);
    let last = last_vote_epoch_bytes(&bytes).unwrap();
    assert_eq!(last, Some(94));
    let min_epoch = current - 5;
    assert!(last.unwrap() <= min_epoch);
}

#[test]
fn not_delinquent_if_last_vote_within_n() {
    // current=100, N=5 => min_epoch=95; last=97 => not delinquent
    let current = 100;
    let bytes = build_epoch_credits_bytes(&[(97, 5, 0)]);
    let last = last_vote_epoch_bytes(&bytes).unwrap();
    assert_eq!(last, Some(97));
    let min_epoch = current - 5;
    assert!(!(last.unwrap() <= min_epoch));
}
