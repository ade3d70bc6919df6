use locker::{CreateVestingEscrowParameters, LockerError, Pubkey, VestingEscrow};

fn key(b: u8) -> Pubkey {
    Pubkey([b; 32])
}

fn escrow() -> VestingEscrow {
    CreateVestingEscrowParameters {
        vesting_start_time: 0,
        cliff_time: 100,
        frequency: 10,
        cliff_unlock_amount: 50,
        amount_per_period: 10,
        number_of_period: 5,
        update_recipient_mode: 0,
        cancel_mode: 0,
    }
    .init_escrow(key(2), key(3), key(1), key(4))
    .unwrap()
}

#[test]
fn scenario_b_two_claims() {
    let mut e = escrow();
    assert_eq!(e.claim(30, 100), Ok(30));
    assert_eq!(e.claimed_amount, 30);
    assert_eq!(e.claim(1000, 135), Ok(50));
    assert_eq!(e.claimed_amount, 80);
}

#[test]
fn scenario_c_claim_after_cancel_fails() {
    let mut e = escrow();
    e.claim(30, 100).unwrap();
    e.claim(1000, 135).unwrap();
    assert_eq!(e.cancel(140), Ok(()));
    assert_eq!(e.cancelled_at, 140);
    assert_eq!(e.claim(1, 200), Err(LockerError::AlreadyCancelled));
    assert_eq!(e.claimed_amount, 80);
}

#[test]
fn cancel_twice_fails() {
    let mut e = escrow();
    e.cancel(5).unwrap();
    let before = e;
    assert_eq!(e.cancel(6), Err(LockerError::AlreadyCancelled));
    assert_eq!(e, before);
}

#[test]
fn claim_without_new_unlocks_is_a_no_op() {
    let mut e = escrow();
    assert_eq!(e.claim(u64::MAX, 120), Ok(70));
    let before = e;
    assert_eq!(e.claim(u64::MAX, 120), Ok(0));
    assert_eq!(e, before);
}

#[test]
fn claim_before_cliff_pays_nothing() {
    let mut e = escrow();
    assert_eq!(e.claim(10, 50), Ok(0));
    assert_eq!(e.claimed_amount, 0);
}

#[test]
fn claim_with_zero_limit_pays_nothing() {
    let mut e = escrow();
    assert_eq!(e.claim(0, 500), Ok(0));
    assert_eq!(e.claimed_amount, 0);
}

#[test]
fn claims_never_exceed_total() {
    let mut e = escrow();
    let mut last = 0u64;
    for t in (90..400u64).step_by(7) {
        e.claim(13, t).unwrap();
        assert!(e.claimed_amount >= last);
        assert!(e.claimed_amount <= 100);
        last = e.claimed_amount;
    }
    assert_eq!(e.claim(u64::MAX, 1000), Ok(100 - last));
    assert_eq!(e.claimed_amount, 100);
}

#[test]
fn claim_at_an_earlier_time_pays_nothing() {
    let mut e = escrow();
    assert_eq!(e.claim(1000, 150), Ok(100));
    assert_eq!(e.claim(1000, 100), Ok(0));
    assert_eq!(e.claimed_amount, 100);
}

#[test]
fn well_formed_records_are_recognised() {
    let mut e = escrow();
    assert!(e.is_well_formed());
    e.claimed_amount = 100;
    assert!(e.is_well_formed());
    e.claimed_amount = 101;
    assert!(!e.is_well_formed());
    let mut e = escrow();
    e.cliff_time = 0;
    e.vesting_start_time = 1;
    assert!(!e.is_well_formed());
    let mut e = escrow();
    e.frequency = 0;
    assert!(!e.is_well_formed());
    let mut e = escrow();
    e.amount_per_period = u64::MAX;
    assert!(!e.is_well_formed());
}

#[test]
fn cancelled_escrow_refuses_every_later_operation() {
    let mut e = escrow();
    assert_eq!(e.cancel(1), Ok(()));
    let frozen = e;
    for t in [0u64, 1, 100, 135, 10_000] {
        assert_eq!(e.claim(u64::MAX, t), Err(LockerError::AlreadyCancelled));
        assert_eq!(e.cancel(t), Err(LockerError::AlreadyCancelled));
        assert_eq!(e, frozen);
    }
}
