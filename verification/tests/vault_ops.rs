use vector_vault::errors::VaultError;
use vector_vault::ops;
use vector_vault::state::{AccountId, UserPosition, Vault};

fn acct(id: u128) -> AccountId {
    AccountId { id }
}

fn fresh_position() -> UserPosition {
    UserPosition { owner: acct(0), deposited: 0, locked: 0, last_update: 0, bump: 0 }
}

fn owned_position(owner: u128, deposited: u64, locked: u64) -> UserPosition {
    UserPosition { owner: acct(owner), deposited, locked, last_update: 0, bump: 5 }
}

fn vault_with(total: u64) -> Vault {
    Vault { authority: acct(7), usdc_mint: acct(9), total_deposits: total, bump: 1 }
}

#[test]
fn initialize_creates_empty_vault() {
    let v = ops::initialize(acct(7), acct(9), 255);
    assert_eq!(v.authority, acct(7));
    assert_eq!(v.usdc_mint, acct(9));
    assert_eq!(v.total_deposits, 0);
    assert_eq!(v.bump, 255);
}

#[test]
fn deposit_credits_position_and_aggregate() {
    let mut v = vault_with(50);
    let mut p = owned_position(42, 10, 0);
    let ev = ops::deposit(&mut v, &mut p, acct(42), 3, 1000, 77).unwrap();
    assert_eq!(p.deposited, 1010);
    assert_eq!(p.locked, 0);
    assert_eq!(p.last_update, 77);
    assert_eq!(p.bump, 5);
    assert_eq!(v.total_deposits, 1050);
    assert_eq!(ev.user, acct(42));
    assert_eq!(ev.amount, 1000);
    assert_eq!(ev.total_deposited, 1010);
    assert_eq!(ev.timestamp, 77);
}

#[test]
fn deposit_binds_fresh_position_to_owner() {
    let mut v = vault_with(0);
    let mut p = fresh_position();
    let ev = ops::deposit(&mut v, &mut p, acct(42), 3, 500, 1).unwrap();
    assert_eq!(p.owner, acct(42));
    assert_eq!(p.bump, 3);
    assert_eq!(p.deposited, 500);
    assert_eq!(v.total_deposits, 500);
    assert_eq!(ev.total_deposited, 500);
}

#[test]
fn deposit_zero_fails_invalid_amount() {
    let mut v = vault_with(50);
    let mut p = owned_position(42, 10, 4);
    let r = ops::deposit(&mut v, &mut p, acct(42), 3, 0, 77);
    assert_eq!(r.unwrap_err(), VaultError::InvalidAmount);
    assert_eq!(v, vault_with(50));
    assert_eq!(p, owned_position(42, 10, 4));
}

#[test]
fn deposit_to_foreign_position_unauthorized() {
    let mut v = vault_with(50);
    let mut p = owned_position(42, 10, 0);
    let r = ops::deposit(&mut v, &mut p, acct(43), 3, 5, 77);
    assert_eq!(r.unwrap_err(), VaultError::Unauthorized);
    assert_eq!(p, owned_position(42, 10, 0));
}

#[test]
fn deposit_position_overflow_fails() {
    let mut v = vault_with(50);
    let mut p = owned_position(42, u64::MAX - 1, 0);
    let r = ops::deposit(&mut v, &mut p, acct(42), 3, 2, 77);
    assert_eq!(r.unwrap_err(), VaultError::ArithmeticOverflow);
    assert_eq!(v.total_deposits, 50);
    assert_eq!(p.deposited, u64::MAX - 1);
}

#[test]
fn deposit_aggregate_overflow_fails() {
    let mut v = vault_with(u64::MAX);
    let mut p = owned_position(42, 10, 0);
    let r = ops::deposit(&mut v, &mut p, acct(42), 3, 1, 77);
    assert_eq!(r.unwrap_err(), VaultError::ArithmeticOverflow);
    assert_eq!(v.total_deposits, u64::MAX);
    assert_eq!(p.deposited, 10);
}

#[test]
fn withdraw_debits_position_and_aggregate() {
    let mut v = vault_with(1000);
    let mut p = owned_position(42, 600, 100);
    let ev = ops::withdraw(&mut v, &mut p, acct(42), 250, 9).unwrap();
    assert_eq!(p.deposited, 350);
    assert_eq!(p.locked, 100);
    assert_eq!(p.last_update, 9);
    assert_eq!(v.total_deposits, 750);
    assert_eq!(ev.user, acct(42));
    assert_eq!(ev.amount, 250);
    assert_eq!(ev.remaining, 350);
    assert_eq!(ev.timestamp, 9);
}

#[test]
fn withdraw_more_than_deposited_fails_insufficient() {
    let mut v = vault_with(1000);
    let mut p = owned_position(42, 600, 0);
    let r = ops::withdraw(&mut v, &mut p, acct(42), 601, 9);
    assert_eq!(r.unwrap_err(), VaultError::InsufficientBalance);
    assert_eq!(v, vault_with(1000));
    assert_eq!(p, owned_position(42, 600, 0));
}

#[test]
fn withdraw_zero_fails_invalid_amount() {
    let mut v = vault_with(1000);
    let mut p = owned_position(42, 600, 0);
    let r = ops::withdraw(&mut v, &mut p, acct(42), 0, 9);
    assert_eq!(r.unwrap_err(), VaultError::InvalidAmount);
}

#[test]
fn withdraw_by_non_owner_unauthorized() {
    let mut v = vault_with(1000);
    let mut p = owned_position(42, 600, 0);
    let r = ops::withdraw(&mut v, &mut p, acct(43), 100, 9);
    assert_eq!(r.unwrap_err(), VaultError::Unauthorized);
    assert_eq!(p, owned_position(42, 600, 0));
}

#[test]
fn withdraw_aggregate_underflow_is_defensive() {
    // An aggregate below the position's balance cannot arise while the
    // custody invariant holds; the defensive check still refuses it.
    let mut v = vault_with(10);
    let mut p = owned_position(42, 600, 0);
    let r = ops::withdraw(&mut v, &mut p, acct(42), 100, 9);
    assert_eq!(r.unwrap_err(), VaultError::ArithmeticUnderflow);
    assert_eq!(v.total_deposits, 10);
    assert_eq!(p.deposited, 600);
}

#[test]
fn deposit_withdraw_round_trip_restores_balances() {
    let mut v = vault_with(300);
    let mut p = owned_position(42, 120, 30);
    ops::deposit(&mut v, &mut p, acct(42), 3, 555, 1).unwrap();
    ops::withdraw(&mut v, &mut p, acct(42), 555, 2).unwrap();
    assert_eq!(v.total_deposits, 300);
    assert_eq!(p.deposited, 120);
    assert_eq!(p.locked, 30);
}

#[test]
fn lock_reserves_free_balance() {
    let v = vault_with(1000);
    let mut p = owned_position(42, 600, 100);
    let ev = ops::lock_for_bet(&v, &mut p, acct(7), 500, String::from("w1"), 4).unwrap();
    assert_eq!(p.locked, 600);
    assert_eq!(p.deposited, 600);
    assert_eq!(p.last_update, 4);
    assert_eq!(ev.user, acct(42));
    assert_eq!(ev.amount, 500);
    assert_eq!(ev.bet_id, "w1");
    assert_eq!(ev.timestamp, 4);
}

#[test]
fn lock_beyond_free_balance_fails_insufficient() {
    let v = vault_with(1000);
    let mut p = owned_position(42, 600, 100);
    let r = ops::lock_for_bet(&v, &mut p, acct(7), 501, String::from("w1"), 4);
    assert_eq!(r.unwrap_err(), VaultError::InsufficientBalance);
    assert_eq!(p, owned_position(42, 600, 100));
}

#[test]
fn lock_zero_fails_invalid_amount() {
    let v = vault_with(1000);
    let mut p = owned_position(42, 600, 0);
    let r = ops::lock_for_bet(&v, &mut p, acct(7), 0, String::from("w1"), 4);
    assert_eq!(r.unwrap_err(), VaultError::InvalidAmount);
}

#[test]
fn lock_by_non_operator_unauthorized() {
    let v = vault_with(1000);
    let mut p = owned_position(42, 600, 0);
    let r = ops::lock_for_bet(&v, &mut p, acct(42), 100, String::from("w1"), 4);
    assert_eq!(r.unwrap_err(), VaultError::Unauthorized);
    assert_eq!(p, owned_position(42, 600, 0));
}

#[test]
fn lock_with_saturated_locked_total_fails_insufficient() {
    // locked + amount exceeds u64::MAX, so no deposited balance can cover it.
    let v = vault_with(1000);
    let mut p = owned_position(42, u64::MAX, u64::MAX);
    let r = ops::lock_for_bet(&v, &mut p, acct(7), 1, String::from("w1"), 4);
    assert_eq!(r.unwrap_err(), VaultError::InsufficientBalance);
}

#[test]
fn settle_stake_over_locked_fails_invalid_amount() {
    let mut v = vault_with(1000);
    let mut p = owned_position(42, 600, 100);
    let r = ops::settle_bet(&mut v, &mut p, acct(7), String::from("w1"), 101, true, 200, 4);
    assert_eq!(r.unwrap_err(), VaultError::InvalidAmount);
    assert_eq!(v, vault_with(1000));
    assert_eq!(p, owned_position(42, 600, 100));
}

#[test]
fn settle_break_even_only_unlocks() {
    let mut v = vault_with(1000);
    let mut p = owned_position(42, 600, 100);
    let ev = ops::settle_bet(&mut v, &mut p, acct(7), String::from("w1"), 100, true, 100, 4)
        .unwrap();
    assert_eq!(p.deposited, 600);
    assert_eq!(p.locked, 0);
    assert_eq!(v.total_deposits, 1000);
    assert_eq!(ev.stake, 100);
    assert!(ev.won);
    assert_eq!(ev.payout, 100);
}

#[test]
fn settle_win_credits_net_winnings() {
    let mut v = vault_with(1000);
    let mut p = owned_position(42, 600, 100);
    let ev = ops::settle_bet(&mut v, &mut p, acct(7), String::from("w1"), 100, true, 150, 4)
        .unwrap();
    assert_eq!(p.deposited, 650);
    assert_eq!(p.locked, 0);
    assert_eq!(v.total_deposits, 1050);
    assert_eq!(ev.user, acct(42));
    assert_eq!(ev.bet_id, "w1");
    assert_eq!(ev.timestamp, 4);
}

#[test]
fn settle_loss_debits_stake() {
    let mut v = vault_with(1000);
    let mut p = owned_position(42, 600, 100);
    let ev = ops::settle_bet(&mut v, &mut p, acct(7), String::from("w1"), 100, false, 0, 4)
        .unwrap();
    assert_eq!(p.deposited, 500);
    assert_eq!(p.locked, 0);
    assert_eq!(v.total_deposits, 900);
    assert!(!ev.won);
}

#[test]
fn settle_payout_below_stake_clamps_to_zero_winnings() {
    let mut v = vault_with(1000);
    let mut p = owned_position(42, 600, 100);
    ops::settle_bet(&mut v, &mut p, acct(7), String::from("w1"), 100, true, 40, 4).unwrap();
    assert_eq!(p.deposited, 600);
    assert_eq!(p.locked, 0);
    assert_eq!(v.total_deposits, 1000);
}

#[test]
fn settle_by_non_operator_unauthorized() {
    let mut v = vault_with(1000);
    let mut p = owned_position(42, 600, 100);
    let r = ops::settle_bet(&mut v, &mut p, acct(42), String::from("w1"), 100, true, 150, 4);
    assert_eq!(r.unwrap_err(), VaultError::Unauthorized);
    assert_eq!(p, owned_position(42, 600, 100));
}

#[test]
fn settle_win_overflow_fails() {
    let mut v = vault_with(1000);
    let mut p = owned_position(42, u64::MAX - 10, 100);
    let r = ops::settle_bet(&mut v, &mut p, acct(7), String::from("w1"), 100, true, 211, 4);
    assert_eq!(r.unwrap_err(), VaultError::ArithmeticOverflow);
    assert_eq!(v.total_deposits, 1000);
    assert_eq!(p.deposited, u64::MAX - 10);
    assert_eq!(p.locked, 100);
}

#[test]
fn settle_zero_stake_is_a_no_op_settlement() {
    let mut v = vault_with(1000);
    let mut p = owned_position(42, 600, 100);
    ops::settle_bet(&mut v, &mut p, acct(7), String::from("w1"), 0, true, 0, 4).unwrap();
    assert_eq!(p.deposited, 600);
    assert_eq!(p.locked, 100);
    assert_eq!(v.total_deposits, 1000);
}
