//! Liquidating an under-collateralised position.
use vstd::prelude::*;
use crate::key::Key;
use crate::lending::error::ErrorCode;
use crate::lending::state::{User, Bank};
use crate::lending::price::{pyth_price, scaled_price, read_pyth_price, price_in_wei};

verus! {

/// Health factors, thresholds, bonuses and close factors are in basis points of this.
pub const BASIS_POINTS: u64 = 10000;

/// What a position has deposited, in units of its assets (prices cancel out).
pub open spec fn collateral_of(u: User) -> int {
    u.deposited_sol + u.deposited_usdc
}

/// What a position has borrowed, in units of its assets (prices cancel out).
pub open spec fn debt_of(u: User) -> int {
    u.borrowed_sol + u.borrowed_usdc
}

/// Collateral over debt in basis points, rounded down; 10000 when there is no debt.
pub open spec fn health(collateral: int, debt: int) -> int {
    if debt > 0 { collateral * 10000 / debt } else { 10000 }
}

/// Whether valuing each balance at its scaled price (`price * amount / price`)
/// and adding up the totals stays within `u64`; the program aborts otherwise.
pub open spec fn totals_fit(sol_wei: int, usdc_wei: int, u: User) -> bool {
    &&& sol_wei * u.deposited_sol <= u64::MAX
    &&& usdc_wei * u.deposited_usdc <= u64::MAX
    &&& collateral_of(u) <= u64::MAX
    &&& sol_wei * u.borrowed_sol <= u64::MAX
    &&& usdc_wei * u.borrowed_usdc <= u64::MAX
    &&& debt_of(u) <= u64::MAX
}

/// Whether the health factor of the position can be computed within `u64`.
pub open spec fn valuation_fits(sol_wei: int, usdc_wei: int, u: User) -> bool {
    &&& totals_fit(sol_wei, usdc_wei, u)
    &&& debt_of(u) > 0 ==> collateral_of(u) * 10000 <= u64::MAX
}

/// `a - b`, or zero where that would be negative.
pub open spec fn sub_or_zero(a: u64, b: int) -> u64 {
    if a >= b { (a - b) as u64 } else { 0 }
}

/// The amounts a liquidation moves: the debt the liquidator repays into the
/// borrowed bank, and the collateral (repayment plus bonus) it receives.
#[derive(Clone, Copy, Debug, PartialEq, Eq)]
pub struct Liquidation {
    pub liquidation_amount: u64,
    pub liquidation_bonus: u64,
}

/// The debt one liquidation repays: the close factor's share of the total debt.
pub open spec fn repaid_amount(u: User, cb: Bank) -> int {
    debt_of(u) * cb.liquidation_close_factor / 10000
}

/// The collateral paid out for repaying `amount`: the amount plus the bonus.
pub open spec fn seized_amount(amount: int, cb: Bank) -> int {
    amount * cb.liquidation_bonus / 10000 + amount
}

/// The position after `amount` of its debt was repaid and `seized` of its
/// collateral taken, each from the side that the mints name, and its health
/// factor recomputed.
pub open spec fn settled_user(
    u: User,
    amount: int,
    seized: int,
    collateral_is_usdc: bool,
    borrowed_is_usdc: bool,
) -> User {
    let borrowed_usdc = if borrowed_is_usdc { sub_or_zero(u.borrowed_usdc, amount) } else { u.borrowed_usdc };
    let borrowed_sol = if borrowed_is_usdc { u.borrowed_sol } else { sub_or_zero(u.borrowed_sol, amount) };
    let deposited_usdc = if collateral_is_usdc { sub_or_zero(u.deposited_usdc, seized) } else { u.deposited_usdc };
    let deposited_sol = if collateral_is_usdc { u.deposited_sol } else { sub_or_zero(u.deposited_sol, seized) };
    User {
        borrowed_usdc,
        borrowed_sol,
        deposited_usdc,
        deposited_sol,
        health_factor: health(deposited_sol + deposited_usdc, borrowed_sol + borrowed_usdc) as u64,
        ..u
    }
}

/// A liquidation at given scaled prices: `None` where the program aborts on an
/// overflow; otherwise the refusal, or the amounts moved with the new user,
/// collateral bank and borrowed bank.
pub open spec fn liquidate_at(
    sol_wei: int,
    usdc_wei: int,
    u: User,
    cb: Bank,
    bb: Bank,
    collateral_is_usdc: bool,
    borrowed_is_usdc: bool,
) -> Option<Result<(Liquidation, User, Bank, Bank), ErrorCode>> {
    if !valuation_fits(sol_wei, usdc_wei, u) {
        None
    } else if health(collateral_of(u), debt_of(u)) >= cb.liquidation_threshold {
        Some(Err(ErrorCode::NotUndercollateralized))
    } else {
        let amount = repaid_amount(u, cb);
        let seized = seized_amount(amount, cb);
        if debt_of(u) * cb.liquidation_close_factor > u64::MAX || amount * cb.liquidation_bonus
            > u64::MAX || seized > u64::MAX {
            None
        } else {
            Some(
                Ok(
                    (
                        Liquidation {
                            liquidation_amount: amount as u64,
                            liquidation_bonus: seized as u64,
                        },
                        settled_user(u, amount, seized, collateral_is_usdc, borrowed_is_usdc),
                        Bank { total_deposits: sub_or_zero(cb.total_deposits, seized), ..cb },
                        Bank { total_borrowed: sub_or_zero(bb.total_borrowed, amount), ..bb },
                    ),
                ),
            )
        }
    }
}

/// A liquidation from the raw price accounts: price errors first, then aborts
/// on scaling the prices, then the liquidation itself.
pub open spec fn liquidation(
    sol_data: Seq<u8>,
    usdc_data: Seq<u8>,
    u: User,
    cb: Bank,
    bb: Bank,
    collateral_mint: Key,
    borrowed_mint: Key,
) -> Option<Result<(Liquidation, User, Bank, Bank), ErrorCode>> {
    match pyth_price(sol_data) {
        Err(e) => Some(Err(e)),
        Ok((sol_price, sol_expo)) => match pyth_price(usdc_data) {
            Err(e) => Some(Err(e)),
            Ok((usdc_price, usdc_expo)) => match (
                scaled_price(sol_price, sol_expo),
                scaled_price(usdc_price, usdc_expo),
            ) {
                (Some(sol_wei), Some(usdc_wei)) => liquidate_at(
                    sol_wei as int,
                    usdc_wei as int,
                    u,
                    cb,
                    bb,
                    collateral_mint@ == u.usdc_address@,
                    borrowed_mint@ == u.usdc_address@,
                ),
                _ => None,
            },
        },
    }
}

/// What the caller is told of a liquidation outcome.
pub open spec fn liquidation_result(o: Option<Result<(Liquidation, User, Bank, Bank), ErrorCode>>) -> Option<Result<Liquidation, ErrorCode>> {
    match o {
        Some(Ok(t)) => Some(Ok(t.0)),
        Some(Err(e)) => Some(Err(e)),
        None => None,
    }
}

/// Whether the outcome is a completed liquidation.
pub open spec fn liquidated(o: Option<Result<(Liquidation, User, Bank, Bank), ErrorCode>>) -> bool {
    o matches Some(Ok(_))
}

/// The accounts after the outcome: the new ones after a completed
/// liquidation, the old ones otherwise.
pub open spec fn accounts_after(
    o: Option<Result<(Liquidation, User, Bank, Bank), ErrorCode>>,
    u: User,
    cb: Bank,
    bb: Bank,
) -> (User, Bank, Bank) {
    match o {
        Some(Ok(t)) => (t.1, t.2, t.3),
        _ => (u, cb, bb),
    }
}

/// Valuing an amount at a positive price and dividing the price back out
/// gives the amount.
pub(crate) proof fn lemma_value_cancels(w: int, a: int)
    requires
        w > 0,
        a >= 0,
    ensures
        (w * a) / w == a,
{
    assert((w * a) / w == a) by (nonlinear_arith)
        requires w > 0, a >= 0;
}

/// `price_wei * amount / price_wei`, or `None` where the product overflows.
fn value_at(wei: u64, amount: u64) -> (r: Option<u64>)
    requires
        wei > 0,
    ensures
        r == (if wei * amount <= u64::MAX { Some(amount) } else { None::<u64> }),
{
    match wei.checked_mul(amount) {
        Some(p) => {
            proof {
                lemma_value_cancels(wei as int, amount as int);
            }
            Some(p / wei)
        },
        None => None,
    }
}

/// The position's total collateral and total debt valued at the scaled
/// prices, or `None` where a product or a sum overflows.
fn position_totals(sol_wei: u64, usdc_wei: u64, u: &User) -> (r: Option<(u64, u64)>)
    requires
        sol_wei > 0,
        usdc_wei > 0,
    ensures
        r == (if totals_fit(sol_wei as int, usdc_wei as int, *u) {
            Some((collateral_of(*u) as u64, debt_of(*u) as u64))
        } else {
            None::<(u64, u64)>
        }),
{
    let dep_sol = value_at(sol_wei, u.deposited_sol)?;
    let dep_usdc = value_at(usdc_wei, u.deposited_usdc)?;
    let collateral = dep_sol.checked_add(dep_usdc)?;
    let bor_sol = value_at(sol_wei, u.borrowed_sol)?;
    let bor_usdc = value_at(usdc_wei, u.borrowed_usdc)?;
    let debt = bor_sol.checked_add(bor_usdc)?;
    Some((collateral, debt))
}

/// Collateral over debt in basis points (10000 with no debt), or `None` where
/// the scaling overflows.
fn health_factor(collateral: u64, debt: u64) -> (r: Option<u64>)
    ensures
        r == (if debt > 0 && collateral * 10000 > u64::MAX {
            None::<u64>
        } else {
            Some(health(collateral as int, debt as int) as u64)
        }),
{
    if debt > 0 {
        let scaled = collateral.checked_mul(BASIS_POINTS)?;
        Some(scaled / debt)
    } else {
        Some(BASIS_POINTS)
    }
}

/// Liquidates part of an under-collateralised position, or reports why not.
///
/// Reads both prices, values the position, refuses with
/// `NotUndercollateralized` when its health factor is at or above the
/// collateral bank's liquidation threshold, and otherwise repays the close
/// factor's share of the debt and seizes that much collateral plus the bonus:
/// the user's balances on the sides that the mints name, the borrowed bank's
/// total borrowed and the collateral bank's total deposits all shrink (never
/// below zero), and the user's health factor is recomputed. The returned
/// amounts are the transfers that the liquidator makes and receives.
///
/// `None` stands for the inputs on which the program aborts with an
/// arithmetic overflow; the accounts are then left as they were, as they are
/// after a refusal.
pub fn try_process_liquidate(
    sol_price_data: &[u8],
    usdc_price_data: &[u8],
    user: &mut User,
    collateral_bank: &mut Bank,
    borrowed_bank: &mut Bank,
    collateral_mint: &Key,
    borrowed_mint: &Key,
) -> (r: Option<Result<Liquidation, ErrorCode>>)
    ensures
        ({
            let o = liquidation(
                sol_price_data@,
                usdc_price_data@,
                *old(user),
                *old(collateral_bank),
                *old(borrowed_bank),
                *collateral_mint,
                *borrowed_mint,
            );
            &&& r == liquidation_result(o)
            &&& (*final(user), *final(collateral_bank), *final(borrowed_bank)) == accounts_after(
                o,
                *old(user),
                *old(collateral_bank),
                *old(borrowed_bank),
            )
        }),
{
    let (sol_price, sol_expo) = match read_pyth_price(sol_price_data) {
        Ok(p) => p,
        Err(e) => return Some(Err(e)),
    };
    let (usdc_price, usdc_expo) = match read_pyth_price(usdc_price_data) {
        Ok(p) => p,
        Err(e) => return Some(Err(e)),
    };
    let sol_price_wei = price_in_wei(sol_price, sol_expo)?;
    let usdc_price_wei = price_in_wei(usdc_price, usdc_expo)?;

    let (total_collateral, total_borrowed) = position_totals(sol_price_wei, usdc_price_wei, user)?;
    let health = health_factor(total_collateral, total_borrowed)?;
    if health >= collateral_bank.liquidation_threshold {
        return Some(Err(ErrorCode::NotUndercollateralized));
    }

    let liquidation_amount = total_borrowed.checked_mul(collateral_bank.liquidation_close_factor)? / BASIS_POINTS;
    let bonus_part = liquidation_amount.checked_mul(collateral_bank.liquidation_bonus)? / BASIS_POINTS;
    let liquidation_bonus = bonus_part.checked_add(liquidation_amount)?;

    let usdc_address = user.usdc_address;
    if borrowed_mint.same_as(&usdc_address) {
        user.borrowed_usdc = user.borrowed_usdc.saturating_sub(liquidation_amount);
    } else {
        user.borrowed_sol = user.borrowed_sol.saturating_sub(liquidation_amount);
    }
    if collateral_mint.same_as(&usdc_address) {
        user.deposited_usdc = user.deposited_usdc.saturating_sub(liquidation_bonus);
    } else {
        user.deposited_sol = user.deposited_sol.saturating_sub(liquidation_bonus);
    }
    borrowed_bank.total_borrowed = borrowed_bank.total_borrowed.saturating_sub(liquidation_amount);
    collateral_bank.total_deposits = collateral_bank.total_deposits.saturating_sub(liquidation_bonus);

    // Every balance only shrank, so revaluing the position cannot overflow.
    let new_total_collateral = user.deposited_sol + user.deposited_usdc;
    let new_total_borrowed = user.borrowed_sol + user.borrowed_usdc;
    if new_total_borrowed > 0 {
        user.health_factor = new_total_collateral * BASIS_POINTS / new_total_borrowed;
    } else {
        user.health_factor = BASIS_POINTS;
    }
    Some(Ok(Liquidation { liquidation_amount, liquidation_bonus }))
}

/// Liquidates part of an under-collateralised position, or reports why not;
/// see [`try_process_liquidate`]. The inputs on which the program aborts with
/// an arithmetic overflow are left out.
pub fn process_liquidate(
    sol_price_data: &[u8],
    usdc_price_data: &[u8],
    user: &mut User,
    collateral_bank: &mut Bank,
    borrowed_bank: &mut Bank,
    collateral_mint: &Key,
    borrowed_mint: &Key,
) -> (r: Result<Liquidation, ErrorCode>)
    requires
        liquidation(
            sol_price_data@,
            usdc_price_data@,
            *old(user),
            *old(collateral_bank),
            *old(borrowed_bank),
            *collateral_mint,
            *borrowed_mint,
        ) is Some,
    ensures
        ({
            let o = liquidation(
                sol_price_data@,
                usdc_price_data@,
                *old(user),
                *old(collateral_bank),
                *old(borrowed_bank),
                *collateral_mint,
                *borrowed_mint,
            );
            &&& liquidation_result(o) == Some(r)
            &&& (*final(user), *final(collateral_bank), *final(borrowed_bank)) == accounts_after(
                o,
                *old(user),
                *old(collateral_bank),
                *old(borrowed_bank),
            )
        }),
{
    match try_process_liquidate(
        sol_price_data,
        usdc_price_data,
        user,
        collateral_bank,
        borrowed_bank,
        collateral_mint,
        borrowed_mint,
    ) {
        Some(r) => r,
        // The precondition rules this arm out.
        None => Err(ErrorCode::NotUndercollateralized),
    }
}

} // verus!
