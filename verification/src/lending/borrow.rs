//! Borrowing against deposited collateral.
use vstd::prelude::*;
use crate::key::Key;
use crate::lending::error::ErrorCode;
use crate::lending::state::{User, Bank};
use crate::lending::price::{pyth_price, scaled_price, read_pyth_price, price_in_wei};
use crate::lending::liquidate::{BASIS_POINTS, lemma_value_cancels};

verus! {

/// The collateral a borrow is measured against: the SOL deposit with its
/// accrued interest when USDC is borrowed, the USDC deposit otherwise; `None`
/// where valuing it overflows.
pub open spec fn borrow_collateral(
    sol_wei: int,
    usdc_wei: int,
    u: User,
    borrowing_usdc: bool,
    accrued_interest: u64,
) -> Option<int> {
    if borrowing_usdc {
        let c = u.deposited_sol + accrued_interest;
        if c <= u64::MAX && sol_wei * c <= u64::MAX { Some(c) } else { None }
    } else {
        if usdc_wei * u.deposited_usdc <= u64::MAX { Some(u.deposited_usdc as int) } else { None }
    }
}

/// How much may be borrowed against `collateral`: the liquidation threshold's
/// share of it, rounded down.
pub open spec fn borrowable(collateral: int, b: Bank) -> int {
    collateral * b.liquidation_threshold / 10000
}

/// The bank's total borrowed before this loan is added: an empty bank first
/// takes the loan itself as its total (and as its share count).
pub open spec fn opening_borrowed(b: Bank, amount: u64) -> int {
    if b.total_borrowed == 0 { amount as int } else { b.total_borrowed as int }
}

pub open spec fn opening_shares(b: Bank, amount: u64) -> int {
    if b.total_borrowed == 0 { amount as int } else { b.total_borrowed_shares as int }
}

/// The shares a loan is credited with: the opening shares times the loan over
/// the opening total (integer division, zero for a zero total), or zero where
/// that product overflows.
pub open spec fn loan_shares(b: Bank, amount: u64) -> int {
    let total = opening_borrowed(b, amount);
    let ratio = if total == 0 { 0 } else { (amount as int) / total };
    let shares = opening_shares(b, amount) * ratio;
    if shares <= u64::MAX { shares } else { 0 }
}

/// Interest earned on the SOL deposit: what the accrued value exceeds it by.
pub open spec fn interest_earned(u: User, accrued_interest: u64) -> int {
    if accrued_interest > u.deposited_sol { accrued_interest - u.deposited_sol } else { 0 }
}

/// A borrow at given scaled prices: `None` where the program aborts on an
/// overflow; otherwise the refusal, or the new user and bank.
pub open spec fn borrow_at(
    sol_wei: int,
    usdc_wei: int,
    u: User,
    b: Bank,
    borrowing_usdc: bool,
    amount: u64,
    accrued_interest: u64,
) -> Option<Result<(User, Bank), ErrorCode>> {
    match borrow_collateral(sol_wei, usdc_wei, u, borrowing_usdc, accrued_interest) {
        None => None,
        Some(c) => if c * b.liquidation_threshold > u64::MAX {
            None
        } else if borrowable(c, b) < amount {
            Some(Err(ErrorCode::OverBorrowableAmount))
        } else {
            let total = opening_borrowed(b, amount) + amount;
            let shares = loan_shares(b, amount);
            let total_shares = opening_shares(b, amount) + shares;
            let deposits = b.total_deposits + interest_earned(u, accrued_interest);
            let debt = if borrowing_usdc { u.borrowed_usdc + amount } else { u.borrowed_sol + amount };
            let debt_shares = if borrowing_usdc {
                u.deposited_usdc_shares + shares
            } else {
                u.borrowed_sol_shares + shares
            };
            if total > u64::MAX || total_shares > u64::MAX || deposits > u64::MAX || debt > u64::MAX
                || debt_shares > u64::MAX {
                None
            } else {
                let nu = if borrowing_usdc {
                    User { borrowed_usdc: debt as u64, deposited_usdc_shares: debt_shares as u64, ..u }
                } else {
                    User { borrowed_sol: debt as u64, borrowed_sol_shares: debt_shares as u64, ..u }
                };
                let nb = Bank {
                    total_borrowed: total as u64,
                    total_borrowed_shares: total_shares as u64,
                    total_deposits: deposits as u64,
                    ..b
                };
                Some(Ok((nu, nb)))
            }
        },
    }
}

/// A borrow from the raw price accounts: price errors first, then aborts on
/// scaling the prices, then the borrow itself.
pub open spec fn borrowing(
    sol_data: Seq<u8>,
    usdc_data: Seq<u8>,
    u: User,
    b: Bank,
    mint: Key,
    amount: u64,
    accrued_interest: u64,
) -> Option<Result<(User, Bank), ErrorCode>> {
    match pyth_price(sol_data) {
        Err(e) => Some(Err(e)),
        Ok((sol_price, sol_expo)) => match pyth_price(usdc_data) {
            Err(e) => Some(Err(e)),
            Ok((usdc_price, usdc_expo)) => match (
                scaled_price(sol_price, sol_expo),
                scaled_price(usdc_price, usdc_expo),
            ) {
                (Some(sol_wei), Some(usdc_wei)) => borrow_at(
                    sol_wei as int,
                    usdc_wei as int,
                    u,
                    b,
                    mint@ == u.usdc_address@,
                    amount,
                    accrued_interest,
                ),
                _ => None,
            },
        },
    }
}

/// What the caller is told of a borrow outcome.
pub open spec fn borrow_result(o: Option<Result<(User, Bank), ErrorCode>>) -> Option<Result<(), ErrorCode>> {
    match o {
        Some(Ok(_)) => Some(Ok(())),
        Some(Err(e)) => Some(Err(e)),
        None => None,
    }
}

/// The accounts after the outcome: the new ones after a completed borrow, the
/// old ones otherwise.
pub open spec fn borrow_accounts_after(o: Option<Result<(User, Bank), ErrorCode>>, u: User, b: Bank) -> (User, Bank) {
    match o {
        Some(Ok(t)) => t,
        _ => (u, b),
    }
}

/// Records a loan of `amount` of `mint` from `bank` to `user`, or reports why not.
///
/// The collateral is the SOL deposit plus `accrued_interest` (the deposit's
/// value with interest, computed by the caller) when `mint` is the user's USDC
/// mint, and the USDC deposit otherwise. The loan is refused with
/// `OverBorrowableAmount` when it exceeds the liquidation threshold's share of
/// that collateral. Otherwise the bank's total borrowed grows by the loan
/// (after an empty bank first took the loan as its total), its shares and the
/// user's by the loan's shares, its deposits by the interest earned, and the
/// user's debt on the borrowed side by the loan. The caller then transfers
/// `amount` to the user.
///
/// `None` stands for the inputs on which the program aborts with an
/// arithmetic overflow; the accounts are then left as they were, as they are
/// after a refusal.
pub fn try_process_borrow(
    sol_price_data: &[u8],
    usdc_price_data: &[u8],
    user: &mut User,
    bank: &mut Bank,
    mint: &Key,
    amount: u64,
    accrued_interest: u64,
) -> (r: Option<Result<(), ErrorCode>>)
    ensures
        ({
            let o = borrowing(
                sol_price_data@,
                usdc_price_data@,
                *old(user),
                *old(bank),
                *mint,
                amount,
                accrued_interest,
            );
            &&& r == borrow_result(o)
            &&& (*final(user), *final(bank)) == borrow_accounts_after(o, *old(user), *old(bank))
        }),
{
    let (sol_price, sol_expo) = match read_pyth_price(sol_price_data) {
        Ok(p) => p,
        Err(e) => return Some(Err(e)),
    };
    let (usdc_price, usdc_expo) = match read_pyth_price(usdc_price_data) {
        Ok(p) => p,
        Err(e) => return Some(Err(e)),
    };
    let sol_price_wei = price_in_wei(sol_price, sol_expo)?;
    let usdc_price_wei = price_in_wei(usdc_price, usdc_expo)?;

    let usdc_address = user.usdc_address;
    let borrowing_usdc = mint.same_as(&usdc_address);
    let total_collateral: u64;
    if borrowing_usdc {
        let with_interest = user.deposited_sol.checked_add(accrued_interest)?;
        let value = sol_price_wei.checked_mul(with_interest)?;
        proof {
            lemma_value_cancels(sol_price_wei as int, with_interest as int);
        }
        total_collateral = value / sol_price_wei;
    } else {
        let value = usdc_price_wei.checked_mul(user.deposited_usdc)?;
        proof {
            lemma_value_cancels(usdc_price_wei as int, user.deposited_usdc as int);
        }
        total_collateral = value / usdc_price_wei;
    }

    let borrowable_amount = total_collateral.checked_mul(bank.liquidation_threshold)? / BASIS_POINTS;
    if borrowable_amount < amount {
        return Some(Err(ErrorCode::OverBorrowableAmount));
    }

    let mut total_borrowed = bank.total_borrowed;
    let mut total_borrowed_shares = bank.total_borrowed_shares;
    if total_borrowed == 0 {
        total_borrowed = amount;
        total_borrowed_shares = amount;
    }
    let borrow_ratio = match amount.checked_div(total_borrowed) {
        Some(q) => q,
        None => 0,
    };
    let users_shares = match total_borrowed_shares.checked_mul(borrow_ratio) {
        Some(p) => p,
        None => 0,
    };
    let new_total_borrowed = total_borrowed.checked_add(amount)?;
    let new_total_shares = total_borrowed_shares.checked_add(users_shares)?;
    let interest_earned: u64 = if accrued_interest > user.deposited_sol {
        accrued_interest - user.deposited_sol
    } else {
        0
    };
    let new_total_deposits = bank.total_deposits.checked_add(interest_earned)?;
    if borrowing_usdc {
        let debt = user.borrowed_usdc.checked_add(amount)?;
        let shares = user.deposited_usdc_shares.checked_add(users_shares)?;
        user.borrowed_usdc = debt;
        user.deposited_usdc_shares = shares;
    } else {
        let debt = user.borrowed_sol.checked_add(amount)?;
        let shares = user.borrowed_sol_shares.checked_add(users_shares)?;
        user.borrowed_sol = debt;
        user.borrowed_sol_shares = shares;
    }
    bank.total_borrowed = new_total_borrowed;
    bank.total_borrowed_shares = new_total_shares;
    bank.total_deposits = new_total_deposits;
    Some(Ok(()))
}

/// Records a loan, or reports why not; see [`try_process_borrow`]. The inputs
/// on which the program aborts with an arithmetic overflow are left out.
pub fn process_borrow(
    sol_price_data: &[u8],
    usdc_price_data: &[u8],
    user: &mut User,
    bank: &mut Bank,
    mint: &Key,
    amount: u64,
    accrued_interest: u64,
) -> (r: Result<(), ErrorCode>)
    requires
        borrowing(
            sol_price_data@,
            usdc_price_data@,
            *old(user),
            *old(bank),
            *mint,
            amount,
            accrued_interest,
        ) is Some,
    ensures
        ({
            let o = borrowing(
                sol_price_data@,
                usdc_price_data@,
                *old(user),
                *old(bank),
                *mint,
                amount,
                accrued_interest,
            );
            &&& borrow_result(o) == Some(r)
            &&& (*final(user), *final(bank)) == borrow_accounts_after(o, *old(user), *old(bank))
        }),
{
    match try_process_borrow(sol_price_data, usdc_price_data, user, bank, mint, amount, accrued_interest) {
        Some(r) => r,
        // The precondition rules this arm out.
        None => Err(ErrorCode::OverBorrowableAmount),
    }
}

} // verus!
