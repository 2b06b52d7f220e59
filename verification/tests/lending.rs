use lending_vesting::key::Key;
use lending_vesting::lending::borrow::{process_borrow, try_process_borrow};
use lending_vesting::lending::error::ErrorCode;
use lending_vesting::lending::liquidate::{process_liquidate, try_process_liquidate, Liquidation};
use lending_vesting::lending::state::{Bank, User};

fn price_account(price: i64, expo: i32) -> Vec<u8> {
    let mut data = vec![0u8; 200];
    data[20..24].copy_from_slice(&expo.to_le_bytes());
    data[108..116].copy_from_slice(&price.to_le_bytes());
    data
}

fn sol_mint() -> Key {
    Key::new([1u8; 32])
}

fn usdc_mint() -> Key {
    Key::new([2u8; 32])
}

fn user() -> User {
    User {
        deposited_sol: 0,
        deposited_sol_shares: 0,
        borrowed_sol: 0,
        borrowed_sol_shares: 0,
        deposited_usdc: 0,
        deposited_usdc_shares: 0,
        borrowed_usdc: 0,
        borrowed_usdc_shares: 0,
        usdc_address: usdc_mint(),
        health_factor: 0,
        last_updated: 0,
    }
}

fn bank() -> Bank {
    Bank {
        total_deposits: 0,
        total_deposit_shares: 0,
        total_borrowed: 0,
        total_borrowed_shares: 0,
        liquidation_threshold: 8000,
        liquidation_bonus: 500,
        liquidation_close_factor: 5000,
        max_ltv: 7000,
        last_updated: 0,
        interest_rate: 500,
    }
}

fn sol_price() -> Vec<u8> {
    price_account(15_000, -2)
}

fn usdc_price() -> Vec<u8> {
    price_account(9_999, -4)
}

#[test]
fn liquidates_unhealthy_position() {
    let mut u = User { deposited_sol: 100, borrowed_usdc: 90, ..user() };
    let mut cb = Bank { liquidation_threshold: 12000, total_deposits: 2000, ..bank() };
    let mut bb = Bank { total_borrowed: 1000, ..bank() };
    let r = process_liquidate(&sol_price(), &usdc_price(), &mut u, &mut cb, &mut bb, &sol_mint(), &usdc_mint());
    assert_eq!(r, Ok(Liquidation { liquidation_amount: 45, liquidation_bonus: 47 }));
    assert_eq!(u.borrowed_usdc, 45);
    assert_eq!(u.deposited_sol, 53);
    assert_eq!(u.borrowed_sol, 0);
    assert_eq!(u.deposited_usdc, 0);
    assert_eq!(u.health_factor, 53 * 10000 / 45);
    assert_eq!(bb.total_borrowed, 955);
    assert_eq!(cb.total_deposits, 1953);
    assert_eq!(cb.total_borrowed, 0);
    assert_eq!(bb.total_deposits, 0);
}

#[test]
fn liquidation_takes_sides_named_by_mints() {
    let mut u = User { deposited_usdc: 100, borrowed_sol: 90, ..user() };
    let mut cb = Bank { liquidation_threshold: 12000, total_deposits: 2000, ..bank() };
    let mut bb = Bank { total_borrowed: 1000, ..bank() };
    let r = process_liquidate(&sol_price(), &usdc_price(), &mut u, &mut cb, &mut bb, &usdc_mint(), &sol_mint());
    assert_eq!(r, Ok(Liquidation { liquidation_amount: 45, liquidation_bonus: 47 }));
    assert_eq!(u.borrowed_sol, 45);
    assert_eq!(u.deposited_usdc, 53);
}

#[test]
fn healthy_position_is_not_liquidated() {
    let before = User { deposited_sol: 100, borrowed_usdc: 90, health_factor: 7, ..user() };
    let mut u = before;
    let mut cb = bank();
    let mut bb = Bank { total_borrowed: 1000, ..bank() };
    let r = process_liquidate(&sol_price(), &usdc_price(), &mut u, &mut cb, &mut bb, &sol_mint(), &usdc_mint());
    assert_eq!(r, Err(ErrorCode::NotUndercollateralized));
    assert_eq!(u, before);
    assert_eq!(cb, bank());
    assert_eq!(bb.total_borrowed, 1000);
}

#[test]
fn health_at_threshold_is_not_liquidated() {
    let mut u = User { deposited_sol: 100, borrowed_usdc: 100, ..user() };
    let mut cb = Bank { liquidation_threshold: 10000, ..bank() };
    let mut bb = bank();
    let r = process_liquidate(&sol_price(), &usdc_price(), &mut u, &mut cb, &mut bb, &sol_mint(), &usdc_mint());
    assert_eq!(r, Err(ErrorCode::NotUndercollateralized));
}

#[test]
fn liquidation_refuses_bad_price() {
    let before = User { deposited_sol: 100, borrowed_usdc: 90, ..user() };
    let mut u = before;
    let mut cb = Bank { liquidation_threshold: 12000, ..bank() };
    let mut bb = bank();
    let r = process_liquidate(&price_account(0, -8), &usdc_price(), &mut u, &mut cb, &mut bb, &sol_mint(), &usdc_mint());
    assert_eq!(r, Err(ErrorCode::InvalidPrice));
    let r = process_liquidate(&sol_price(), &[0u8; 10], &mut u, &mut cb, &mut bb, &sol_mint(), &usdc_mint());
    assert_eq!(r, Err(ErrorCode::InvalidPrice));
    assert_eq!(u, before);
}

#[test]
fn liquidation_aborts_on_positive_exponent() {
    let before = User { deposited_sol: 100, borrowed_usdc: 90, ..user() };
    let mut u = before;
    let mut cb = Bank { liquidation_threshold: 12000, ..bank() };
    let mut bb = bank();
    let r = try_process_liquidate(&price_account(150, 2), &usdc_price(), &mut u, &mut cb, &mut bb, &sol_mint(), &usdc_mint());
    assert_eq!(r, None);
    assert_eq!(u, before);
}

#[test]
fn liquidation_aborts_on_value_overflow() {
    let mut u = User { deposited_sol: u64::MAX / 10, borrowed_usdc: 90, ..user() };
    let mut cb = Bank { liquidation_threshold: 12000, ..bank() };
    let mut bb = bank();
    let r = try_process_liquidate(&sol_price(), &usdc_price(), &mut u, &mut cb, &mut bb, &sol_mint(), &usdc_mint());
    assert_eq!(r, None);
}

#[test]
fn liquidation_of_debt_free_position() {
    let mut u = User { deposited_sol: 100, ..user() };
    let mut cb = Bank { liquidation_threshold: 10001, ..bank() };
    let mut bb = bank();
    let r = process_liquidate(&sol_price(), &usdc_price(), &mut u, &mut cb, &mut bb, &sol_mint(), &usdc_mint());
    assert_eq!(r, Ok(Liquidation { liquidation_amount: 0, liquidation_bonus: 0 }));
    assert_eq!(u.deposited_sol, 100);
    assert_eq!(u.health_factor, 10000);
}

#[test]
fn liquidation_saturates_at_zero() {
    let mut u = User { deposited_sol: 10, borrowed_usdc: 100, ..user() };
    let mut cb = Bank { liquidation_threshold: 12000, liquidation_close_factor: 10000, total_deposits: 5, ..bank() };
    let mut bb = Bank { total_borrowed: 30, ..bank() };
    let r = process_liquidate(&sol_price(), &usdc_price(), &mut u, &mut cb, &mut bb, &sol_mint(), &usdc_mint());
    assert_eq!(r, Ok(Liquidation { liquidation_amount: 100, liquidation_bonus: 105 }));
    assert_eq!(u.borrowed_usdc, 0);
    assert_eq!(u.deposited_sol, 0);
    assert_eq!(u.health_factor, 10000);
    assert_eq!(bb.total_borrowed, 0);
    assert_eq!(cb.total_deposits, 0);
}

#[test]
fn liquidator_receives_at_least_repayment() {
    let mut u = User { deposited_sol: 1000, borrowed_usdc: 999, ..user() };
    let mut cb = Bank { liquidation_threshold: 20000, liquidation_bonus: 0, ..bank() };
    let mut bb = bank();
    let l = process_liquidate(&sol_price(), &usdc_price(), &mut u, &mut cb, &mut bb, &sol_mint(), &usdc_mint()).unwrap();
    assert!(l.liquidation_bonus >= l.liquidation_amount);
    assert_eq!(l.liquidation_amount, 499);
}

#[test]
fn borrows_sol_against_usdc() {
    let mut u = User { deposited_usdc: 1000, ..user() };
    let mut b = Bank { total_deposits: 5000, ..bank() };
    let r = process_borrow(&sol_price(), &usdc_price(), &mut u, &mut b, &sol_mint(), 500, 0);
    assert_eq!(r, Ok(()));
    assert_eq!(u.borrowed_sol, 500);
    assert_eq!(u.borrowed_sol_shares, 500);
    assert_eq!(u.borrowed_usdc, 0);
    assert_eq!(b.total_borrowed, 1000);
    assert_eq!(b.total_borrowed_shares, 1000);
    assert_eq!(b.total_deposits, 5000);
}

#[test]
fn borrow_at_exactly_borrowable() {
    let mut u = User { deposited_usdc: 1000, ..user() };
    let mut b = Bank { total_borrowed: 400, total_borrowed_shares: 400, ..bank() };
    let r = process_borrow(&sol_price(), &usdc_price(), &mut u, &mut b, &sol_mint(), 800, 0);
    assert_eq!(r, Ok(()));
    assert_eq!(b.total_borrowed, 1200);
    assert_eq!(b.total_borrowed_shares, 1200);
    assert_eq!(u.borrowed_sol_shares, 800);
}

#[test]
fn borrow_over_limit_is_refused() {
    let before = User { deposited_usdc: 1000, ..user() };
    let mut u = before;
    let mut b = bank();
    let r = process_borrow(&sol_price(), &usdc_price(), &mut u, &mut b, &sol_mint(), 801, 0);
    assert_eq!(r, Err(ErrorCode::OverBorrowableAmount));
    assert_eq!(u, before);
    assert_eq!(b, bank());
}

#[test]
fn borrows_usdc_against_sol_with_interest() {
    let mut u = User { deposited_sol: 100, ..user() };
    let mut b = Bank { total_borrowed: 1000, total_borrowed_shares: 2000, total_deposits: 300, ..bank() };
    let r = process_borrow(&sol_price(), &usdc_price(), &mut u, &mut b, &usdc_mint(), 100, 110);
    assert_eq!(r, Ok(()));
    assert_eq!(u.borrowed_usdc, 100);
    assert_eq!(u.deposited_usdc_shares, 0);
    assert_eq!(b.total_borrowed, 1100);
    assert_eq!(b.total_borrowed_shares, 2000);
    assert_eq!(b.total_deposits, 310);
}

#[test]
fn usdc_borrow_limit_counts_accrued_value() {
    let mut u = User { deposited_sol: 100, ..user() };
    let mut b = bank();
    let r = process_borrow(&sol_price(), &usdc_price(), &mut u, &mut b, &usdc_mint(), 169, 110);
    assert_eq!(r, Err(ErrorCode::OverBorrowableAmount));
    let r = process_borrow(&sol_price(), &usdc_price(), &mut u, &mut b, &usdc_mint(), 168, 110);
    assert_eq!(r, Ok(()));
}

#[test]
fn borrow_shares_follow_ratio() {
    let mut u = User { deposited_usdc: 100_000, ..user() };
    let mut b = Bank { total_borrowed: 100, total_borrowed_shares: 300, ..bank() };
    let r = process_borrow(&sol_price(), &usdc_price(), &mut u, &mut b, &sol_mint(), 250, 0);
    assert_eq!(r, Ok(()));
    assert_eq!(u.borrowed_sol_shares, 600);
    assert_eq!(b.total_borrowed_shares, 900);
    assert_eq!(b.total_borrowed, 350);
}

#[test]
fn zero_borrow_from_empty_bank() {
    let mut u = User { deposited_usdc: 10, ..user() };
    let mut b = bank();
    let r = process_borrow(&sol_price(), &usdc_price(), &mut u, &mut b, &sol_mint(), 0, 0);
    assert_eq!(r, Ok(()));
    assert_eq!(b.total_borrowed, 0);
    assert_eq!(u.borrowed_sol_shares, 0);
}

#[test]
fn borrow_refuses_bad_price() {
    let mut u = User { deposited_usdc: 1000, ..user() };
    let mut b = bank();
    let r = process_borrow(&sol_price(), &price_account(0, 0), &mut u, &mut b, &sol_mint(), 1, 0);
    assert_eq!(r, Err(ErrorCode::InvalidPrice));
}

#[test]
fn borrow_aborts_on_overflow() {
    let mut u = User { deposited_sol: u64::MAX, ..user() };
    let mut b = bank();
    let r = try_process_borrow(&sol_price(), &usdc_price(), &mut u, &mut b, &usdc_mint(), 1, 1);
    assert_eq!(r, None);
    let mut u = User { deposited_usdc: 1000, borrowed_sol: u64::MAX, ..user() };
    let r = try_process_borrow(&sol_price(), &usdc_price(), &mut u, &mut b, &sol_mint(), 1, 0);
    assert_eq!(r, None);
    assert_eq!(u.borrowed_sol, u64::MAX);
    assert_eq!(b, bank());
}

#[test]
fn smaller_loan_within_limit_is_not_refused() {
    for amount in [0u64, 1, 400, 799, 800] {
        let mut u = User { deposited_usdc: 1000, ..user() };
        let mut b = Bank { total_borrowed: 100, total_borrowed_shares: 100, ..bank() };
        let r = process_borrow(&sol_price(), &usdc_price(), &mut u, &mut b, &sol_mint(), amount, 0);
        assert_eq!(r, Ok(()));
    }
}
