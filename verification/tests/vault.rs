use lock_box::errors::LockBoxError;
use lock_box::instructions::{
    deposit, emergency_withdraw, emergency_withdraw_close, initialize_lockbox, withdraw,
};
use lock_box::states::{Address, LockBox};
use lock_box::transfer::{Authorization, CustodyCapability, TransferAction};

fn addr(fill: u8) -> Address {
    Address::from_bytes(vec![fill; 32]).expect("32 bytes make an address")
}

fn custody() -> CustodyCapability {
    CustodyCapability {
        address: addr(0xCC),
        nonce: 254,
    }
}

fn fresh_vault(target: u64) -> LockBox {
    initialize_lockbox(&addr(1), target, 1_700_000_000, 254).expect("positive target")
}

#[test]
fn initialize_creates_fresh_vault() {
    let lb = fresh_vault(1000);
    assert_eq!(lb.owner.bytes, vec![1u8; 32]);
    assert_eq!(lb.target_amount, 1000);
    assert_eq!(lb.current_balance, 0);
    assert_eq!(lb.created_at, 1_700_000_000);
    assert!(!lb.has_reached_target);
    assert!(lb.is_active);
    assert_eq!(lb.derivation_nonce, 254);
}

#[test]
fn initialize_zero_target_fails() {
    let r = initialize_lockbox(&addr(1), 0, 1_700_000_000, 254);
    assert_eq!(r.err(), Some(LockBoxError::InvalidTargetAmount));
}

#[test]
fn deposit_below_target_leaves_latch_unset() {
    let lb = fresh_vault(1000);
    let (lb2, act) = deposit(&lb, &addr(1), 500, &custody()).expect("valid deposit");
    assert_eq!(lb2.current_balance, 500);
    assert!(!lb2.has_reached_target);
    assert!(lb2.is_active);
    assert_eq!(act.amount, 500);
    assert_eq!(act.from.bytes, vec![1u8; 32]);
    assert_eq!(act.to.bytes, vec![0xCCu8; 32]);
    assert!(matches!(act.authorization, Authorization::OwnerSignature));
}

#[test]
fn deposit_crossing_target_sets_latch() {
    let lb = fresh_vault(1000);
    let (lb2, _) = deposit(&lb, &addr(1), 500, &custody()).expect("valid deposit");
    let (lb3, _) = deposit(&lb2, &addr(1), 600, &custody()).expect("valid deposit");
    assert_eq!(lb3.current_balance, 1100);
    assert!(lb3.has_reached_target);
}

#[test]
fn deposit_exactly_at_target_sets_latch() {
    let lb = fresh_vault(1000);
    let (lb2, _) = deposit(&lb, &addr(1), 1000, &custody()).expect("valid deposit");
    assert_eq!(lb2.current_balance, 1000);
    assert!(lb2.has_reached_target);
}

#[test]
fn deposit_zero_fails() {
    let lb = fresh_vault(1000);
    let r = deposit(&lb, &addr(1), 0, &custody());
    assert_eq!(r.err(), Some(LockBoxError::InvalidDepositAmount));
}

#[test]
fn deposit_overflow_refused_before_transfer() {
    let lb = fresh_vault(1);
    let (lb2, _) = deposit(&lb, &addr(1), u64::MAX, &custody()).expect("valid deposit");
    assert_eq!(lb2.current_balance, u64::MAX);
    let r = deposit(&lb2, &addr(1), 1, &custody());
    assert_eq!(r.err(), Some(LockBoxError::BalanceOverflow));
}

#[test]
fn withdraw_after_latch_succeeds() {
    let lb = fresh_vault(1000);
    let (lb2, _) = deposit(&lb, &addr(1), 1100, &custody()).expect("valid deposit");
    let (lb3, act) = withdraw(&lb2, &addr(1), 200, &custody()).expect("latch is set");
    assert_eq!(lb3.current_balance, 900);
    assert!(lb3.has_reached_target);
    assert!(lb3.is_active);
    assert_eq!(act.amount, 200);
    assert_eq!(act.from.bytes, vec![0xCCu8; 32]);
    assert_eq!(act.to.bytes, vec![1u8; 32]);
    match act.authorization {
        Authorization::DerivationProof { entity, nonce } => {
            assert_eq!(entity.bytes, vec![1u8; 32]);
            assert_eq!(nonce, 254);
        }
        Authorization::OwnerSignature => panic!("vault payout must use the derivation proof"),
    }
}

#[test]
fn withdraw_before_latch_fails() {
    let lb = fresh_vault(1000);
    let (lb2, _) = deposit(&lb, &addr(1), 500, &custody()).expect("valid deposit");
    let r = withdraw(&lb2, &addr(1), 100, &custody());
    assert_eq!(r.err(), Some(LockBoxError::TargetNotReached));
    // The rejected instruction left the entity as it was.
    assert_eq!(lb2.current_balance, 500);
}

#[test]
fn withdraw_more_than_balance_fails() {
    let lb = fresh_vault(100);
    let (lb2, _) = deposit(&lb, &addr(1), 100, &custody()).expect("valid deposit");
    let r = withdraw(&lb2, &addr(1), 101, &custody());
    assert_eq!(r.err(), Some(LockBoxError::InsufficientBalance));
}

#[test]
fn latch_stays_set_below_target() {
    let lb = fresh_vault(1000);
    let (lb2, _) = deposit(&lb, &addr(1), 1000, &custody()).expect("valid deposit");
    let (lb3, _) = withdraw(&lb2, &addr(1), 900, &custody()).expect("latch is set");
    assert_eq!(lb3.current_balance, 100);
    assert!(lb3.has_reached_target);
}

#[test]
fn emergency_withdraw_deactivates_permanently() {
    let lb = fresh_vault(1000);
    let (lb2, _) = deposit(&lb, &addr(1), 1100, &custody()).expect("valid deposit");
    let (lb3, _) = withdraw(&lb2, &addr(1), 200, &custody()).expect("latch is set");
    assert_eq!(lb3.current_balance, 900);
    let (lb4, act) = emergency_withdraw(&lb3, &addr(1), &custody()).expect("active vault");
    assert_eq!(act.amount, 900);
    assert_eq!(act.from.bytes, vec![0xCCu8; 32]);
    assert_eq!(act.to.bytes, vec![1u8; 32]);
    assert!(matches!(
        act.authorization,
        Authorization::DerivationProof { .. }
    ));
    assert_eq!(lb4.current_balance, 0);
    assert!(!lb4.is_active);
    // The record persists but is inert: nothing can move funds again.
    let r = deposit(&lb4, &addr(1), 1, &custody());
    assert_eq!(r.err(), Some(LockBoxError::VaultInactive));
    let r = emergency_withdraw(&lb4, &addr(1), &custody());
    assert_eq!(r.err(), Some(LockBoxError::VaultInactive));
}

#[test]
fn emergency_withdraw_empty_vault_fails() {
    let lb = fresh_vault(1000);
    let r = emergency_withdraw(&lb, &addr(1), &custody());
    assert_eq!(r.err(), Some(LockBoxError::InsufficientBalance));
}

#[test]
fn unauthorized_callers_rejected_everywhere() {
    let lb = fresh_vault(1000);
    let (lb2, _) = deposit(&lb, &addr(1), 1000, &custody()).expect("valid deposit");
    let intruder = addr(9);
    assert_eq!(
        deposit(&lb2, &intruder, 5, &custody()).err(),
        Some(LockBoxError::Unauthorized)
    );
    assert_eq!(
        withdraw(&lb2, &intruder, 5, &custody()).err(),
        Some(LockBoxError::Unauthorized)
    );
    assert_eq!(
        emergency_withdraw(&lb2, &intruder, &custody()).err(),
        Some(LockBoxError::Unauthorized)
    );
    assert_eq!(
        emergency_withdraw_close(&lb2, &intruder, &custody(), 1000).err(),
        Some(LockBoxError::Unauthorized)
    );
    // The rejected instructions changed nothing and issued no transfer.
    assert_eq!(lb2.current_balance, 1000);
    assert!(lb2.is_active);
}

#[test]
fn close_variant_pays_out_external_balance() {
    let lb = fresh_vault(1000);
    let (lb2, _) = deposit(&lb, &addr(1), 700, &custody()).expect("valid deposit");
    // The custody sub-address may hold more than the tracked balance.
    let act: TransferAction =
        emergency_withdraw_close(&lb2, &addr(1), &custody(), 1234).expect("funds present");
    assert_eq!(act.amount, 1234);
    assert_eq!(act.from.bytes, vec![0xCCu8; 32]);
    assert_eq!(act.to.bytes, vec![1u8; 32]);
    assert!(matches!(
        act.authorization,
        Authorization::DerivationProof { .. }
    ));
}

#[test]
fn close_variant_with_nothing_to_withdraw_fails() {
    let lb = fresh_vault(1000);
    let r = emergency_withdraw_close(&lb, &addr(1), &custody(), 0);
    assert_eq!(r.err(), Some(LockBoxError::InsufficientBalance));
}

#[test]
fn error_messages_name_the_failure() {
    assert_eq!(
        LockBoxError::InvalidTargetAmount.message(),
        "Target amount must be greater than zero"
    );
    assert_eq!(
        LockBoxError::Unauthorized.message(),
        "Unauthorized: Only the owner can perform this action"
    );
}

#[test]
fn address_equality_is_by_bytes() {
    let a = addr(3);
    let b = addr(3);
    let c = addr(4);
    assert!(a.same_as(&b));
    assert!(!a.same_as(&c));
    assert!(Address::from_bytes(vec![0u8; 31]).is_none());
    assert!(Address::from_bytes(vec![0u8; 33]).is_none());
}

#[test]
fn balance_tracks_net_of_settled_amounts() {
    // Deposits 400 + 700, withdrawals 300 + 150: balance is their net, and
    // owner and target never move after creation.
    let lb = fresh_vault(1000);
    let (s1, a1) = deposit(&lb, &addr(1), 400, &custody()).expect("valid deposit");
    let (s2, a2) = deposit(&s1, &addr(1), 700, &custody()).expect("valid deposit");
    let (s3, a3) = withdraw(&s2, &addr(1), 300, &custody()).expect("latch is set");
    let (s4, a4) = withdraw(&s3, &addr(1), 150, &custody()).expect("latch is set");
    let deposited = a1.amount + a2.amount;
    let withdrawn = a3.amount + a4.amount;
    assert_eq!(s4.current_balance, deposited - withdrawn);
    assert_eq!(s4.current_balance, 650);
    for state in [&s1, &s2, &s3, &s4] {
        assert_eq!(state.owner.bytes, lb.owner.bytes);
        assert_eq!(state.target_amount, lb.target_amount);
        assert_eq!(state.created_at, lb.created_at);
        assert_eq!(state.derivation_nonce, lb.derivation_nonce);
    }
}
