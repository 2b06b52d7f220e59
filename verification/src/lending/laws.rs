//! Properties that every liquidation and every borrow has.
use vstd::prelude::*;
use crate::key::Key;
use crate::lending::state::{User, Bank};
use crate::lending::error::ErrorCode;
use crate::lending::liquidate::{
    liquidation, liquidated, liquidation_result, accounts_after, health, collateral_of, debt_of,
    repaid_amount, Liquidation,
};
use crate::lending::borrow::{borrowing, borrow_result, borrow_accounts_after, borrow_collateral, borrowable};
use crate::lending::price::{pyth_price, scaled_price};

verus! {

/// A liquidation goes through only for a position whose health factor is
/// below the collateral bank's liquidation threshold.
pub proof fn lemma_liquidation_only_below_threshold(
    sol_data: Seq<u8>,
    usdc_data: Seq<u8>,
    u: User,
    cb: Bank,
    bb: Bank,
    collateral_mint: Key,
    borrowed_mint: Key,
)
    requires
        liquidated(liquidation(sol_data, usdc_data, u, cb, bb, collateral_mint, borrowed_mint)),
    ensures
        health(collateral_of(u), debt_of(u)) < cb.liquidation_threshold,
{
}

/// A liquidation only ever lowers balances: every deposit and debt of the
/// position, the borrowed bank's total borrowed and the collateral bank's
/// total deposits end no higher than they started, and nothing else of the
/// banks changes.
pub proof fn lemma_liquidation_only_lowers(
    sol_data: Seq<u8>,
    usdc_data: Seq<u8>,
    u: User,
    cb: Bank,
    bb: Bank,
    collateral_mint: Key,
    borrowed_mint: Key,
)
    ensures
        ({
            let o = liquidation(sol_data, usdc_data, u, cb, bb, collateral_mint, borrowed_mint);
            let (nu, ncb, nbb) = accounts_after(o, u, cb, bb);
            &&& nu.deposited_sol <= u.deposited_sol
            &&& nu.deposited_usdc <= u.deposited_usdc
            &&& nu.borrowed_sol <= u.borrowed_sol
            &&& nu.borrowed_usdc <= u.borrowed_usdc
            &&& ncb.total_deposits <= cb.total_deposits
            &&& nbb.total_borrowed <= bb.total_borrowed
            &&& ncb == (Bank { total_deposits: ncb.total_deposits, ..cb })
            &&& nbb == (Bank { total_borrowed: nbb.total_borrowed, ..bb })
        }),
{
}

/// The liquidator always receives at least what it repays: the seized
/// collateral is the repaid amount plus a bonus.
pub proof fn lemma_liquidator_receives_at_least_repayment(
    sol_data: Seq<u8>,
    usdc_data: Seq<u8>,
    u: User,
    cb: Bank,
    bb: Bank,
    collateral_mint: Key,
    borrowed_mint: Key,
)
    ensures
        liquidation_result(liquidation(sol_data, usdc_data, u, cb, bb, collateral_mint, borrowed_mint))
            matches Some(Ok(l)) ==> l.liquidation_bonus >= l.liquidation_amount,
{
    let o = liquidation(sol_data, usdc_data, u, cb, bb, collateral_mint, borrowed_mint);
    if let Some(Ok(t)) = o {
        let amount = repaid_amount(u, cb);
        assert(amount * cb.liquidation_bonus >= 0) by (nonlinear_arith)
            requires amount >= 0, cb.liquidation_bonus >= 0;
    }
}

/// With a close factor of at most 100%, a liquidation repays no more than the
/// position's whole debt.
pub proof fn lemma_liquidation_repays_at_most_debt(
    sol_data: Seq<u8>,
    usdc_data: Seq<u8>,
    u: User,
    cb: Bank,
    bb: Bank,
    collateral_mint: Key,
    borrowed_mint: Key,
)
    requires
        cb.liquidation_close_factor <= 10000,
    ensures
        liquidation_result(liquidation(sol_data, usdc_data, u, cb, bb, collateral_mint, borrowed_mint))
            matches Some(Ok(l)) ==> l.liquidation_amount <= debt_of(u),
{
    let d = debt_of(u);
    let f = cb.liquidation_close_factor as int;
    assert(d * f / 10000 <= d) by (nonlinear_arith)
        requires d >= 0, 0 <= f <= 10000;
}

/// A loan that goes through never exceeds the liquidation threshold's share of
/// the collateral it is measured against; where that share can be computed,
/// a loan is refused exactly when it exceeds it.
pub proof fn lemma_borrow_within_limit(
    sol_data: Seq<u8>,
    usdc_data: Seq<u8>,
    u: User,
    b: Bank,
    mint: Key,
    amount: u64,
    accrued_interest: u64,
    sol_wei: u64,
    usdc_wei: u64,
    collateral: int,
)
    requires
        pyth_price(sol_data) matches Ok((p, e)) && scaled_price(p, e) == Some(sol_wei),
        pyth_price(usdc_data) matches Ok((p, e)) && scaled_price(p, e) == Some(usdc_wei),
        borrow_collateral(sol_wei as int, usdc_wei as int, u, mint@ == u.usdc_address@, accrued_interest)
            == Some(collateral),
    ensures
        borrow_result(borrowing(sol_data, usdc_data, u, b, mint, amount, accrued_interest)) matches Some(Ok(_))
            ==> amount <= borrowable(collateral, b),
        collateral * b.liquidation_threshold <= u64::MAX ==> (borrow_result(
            borrowing(sol_data, usdc_data, u, b, mint, amount, accrued_interest),
        ) matches Some(Err(_)) <==> amount > borrowable(collateral, b)),
{
}

/// A loan that goes through adds exactly the loan to the user's debt on the
/// borrowed side and leaves the other side alone; the bank's total borrowed
/// grows by the loan, or becomes twice the loan when the bank had lent
/// nothing before.
pub proof fn lemma_borrow_adds_loan(
    sol_data: Seq<u8>,
    usdc_data: Seq<u8>,
    u: User,
    b: Bank,
    mint: Key,
    amount: u64,
    accrued_interest: u64,
)
    ensures
        ({
            let o = borrowing(sol_data, usdc_data, u, b, mint, amount, accrued_interest);
            let (nu, nb) = borrow_accounts_after(o, u, b);
            o matches Some(Ok(_)) ==> {
                &&& mint@ == u.usdc_address@ ==> nu.borrowed_usdc == u.borrowed_usdc + amount
                    && nu.borrowed_sol == u.borrowed_sol
                &&& mint@ != u.usdc_address@ ==> nu.borrowed_sol == u.borrowed_sol + amount
                    && nu.borrowed_usdc == u.borrowed_usdc
                &&& nu.deposited_sol == u.deposited_sol
                &&& nu.deposited_usdc == u.deposited_usdc
                &&& nb.total_borrowed == (if b.total_borrowed == 0 { 2 * amount } else { b.total_borrowed + amount })
            }
        }),
{
}

/// After a liquidation the user's stored health factor is that of its new
/// balances: their collateral over their debt in basis points, or 10000 when
/// no debt is left.
pub proof fn lemma_liquidation_restores_health_record(
    sol_data: Seq<u8>,
    usdc_data: Seq<u8>,
    u: User,
    cb: Bank,
    bb: Bank,
    collateral_mint: Key,
    borrowed_mint: Key,
)
    ensures
        ({
            let o = liquidation(sol_data, usdc_data, u, cb, bb, collateral_mint, borrowed_mint);
            let nu = accounts_after(o, u, cb, bb).0;
            liquidated(o) ==> nu.health_factor == health(collateral_of(nu), debt_of(nu))
        }),
{
    let o = liquidation(sol_data, usdc_data, u, cb, bb, collateral_mint, borrowed_mint);
    if let Some(Ok(t)) = o {
        let nu = t.1;
        let c = collateral_of(nu);
        let d = debt_of(nu);
        assert(c <= collateral_of(u));
        if d > 0 {
            assert(c * 10000 / d <= c * 10000) by (nonlinear_arith)
                requires c >= 0, d > 0;
            assert(c * 10000 <= collateral_of(u) * 10000) by (nonlinear_arith)
                requires c <= collateral_of(u);
        }
    }
}

/// The borrow limit is a threshold on the amount: where a loan is not refused
/// for exceeding the limit, no smaller loan from the same accounts is.
pub proof fn lemma_borrow_limit_monotone(
    sol_data: Seq<u8>,
    usdc_data: Seq<u8>,
    u: User,
    b: Bank,
    mint: Key,
    amount: u64,
    smaller: u64,
    accrued_interest: u64,
)
    requires
        smaller <= amount,
        borrowing(sol_data, usdc_data, u, b, mint, amount, accrued_interest) != Some(
            Err::<(User, Bank), ErrorCode>(ErrorCode::OverBorrowableAmount),
        ),
    ensures
        borrowing(sol_data, usdc_data, u, b, mint, smaller, accrued_interest) != Some(
            Err::<(User, Bank), ErrorCode>(ErrorCode::OverBorrowableAmount),
        ),
{
}

/// A completed liquidation, in terms of the accounts it started from: it
/// repays the collateral bank's close factor (basis points) of the whole debt,
/// rounded down; it pays out that amount plus the collateral bank's bonus
/// (basis points) of it, rounded down; the repayment comes off the debt on the
/// side the borrowed mint names and the payout off the deposit on the side the
/// collateral mint names, each stopping at zero, while the other side is left
/// alone; the borrowed bank's total borrowed and the collateral bank's total
/// deposits shrink the same way; the stored health factor is that of the new
/// balances; and nothing else changes.
pub proof fn lemma_liquidation_accounting(
    sol_data: Seq<u8>,
    usdc_data: Seq<u8>,
    u: User,
    cb: Bank,
    bb: Bank,
    collateral_mint: Key,
    borrowed_mint: Key,
)
    ensures
        liquidation(sol_data, usdc_data, u, cb, bb, collateral_mint, borrowed_mint) matches Some(
            Ok((l, nu, ncb, nbb)),
        ) ==> {
            let amount = l.liquidation_amount as int;
            let paid = l.liquidation_bonus as int;
            &&& amount == (u.borrowed_sol + u.borrowed_usdc) * cb.liquidation_close_factor / 10000
            &&& paid == amount + amount * cb.liquidation_bonus / 10000
            &&& borrowed_mint@ == u.usdc_address@ ==> {
                &&& nu.borrowed_usdc == (if u.borrowed_usdc >= amount { u.borrowed_usdc - amount } else { 0 })
                &&& nu.borrowed_sol == u.borrowed_sol
            }
            &&& borrowed_mint@ != u.usdc_address@ ==> {
                &&& nu.borrowed_sol == (if u.borrowed_sol >= amount { u.borrowed_sol - amount } else { 0 })
                &&& nu.borrowed_usdc == u.borrowed_usdc
            }
            &&& collateral_mint@ == u.usdc_address@ ==> {
                &&& nu.deposited_usdc == (if u.deposited_usdc >= paid { u.deposited_usdc - paid } else { 0 })
                &&& nu.deposited_sol == u.deposited_sol
            }
            &&& collateral_mint@ != u.usdc_address@ ==> {
                &&& nu.deposited_sol == (if u.deposited_sol >= paid { u.deposited_sol - paid } else { 0 })
                &&& nu.deposited_usdc == u.deposited_usdc
            }
            &&& nu.health_factor == (if nu.borrowed_sol + nu.borrowed_usdc > 0 {
                (nu.deposited_sol + nu.deposited_usdc) * 10000 / (nu.borrowed_sol + nu.borrowed_usdc)
            } else {
                10000
            })
            &&& nu == (User {
                deposited_sol: nu.deposited_sol,
                deposited_usdc: nu.deposited_usdc,
                borrowed_sol: nu.borrowed_sol,
                borrowed_usdc: nu.borrowed_usdc,
                health_factor: nu.health_factor,
                ..u
            })
            &&& ncb.total_deposits == (if cb.total_deposits >= paid { cb.total_deposits - paid } else { 0 })
            &&& nbb.total_borrowed == (if bb.total_borrowed >= amount { bb.total_borrowed - amount } else { 0 })
            &&& ncb == (Bank { total_deposits: ncb.total_deposits, ..cb })
            &&& nbb == (Bank { total_borrowed: nbb.total_borrowed, ..bb })
        },
{
    lemma_liquidation_restores_health_record(sol_data, usdc_data, u, cb, bb, collateral_mint, borrowed_mint);
}

/// How a liquidation is decided once both prices are read and scaled, in
/// terms of the position's fields: with total collateral `c` and total debt
/// `d` (the prices cancel out), a health factor `c * 10000 / d` (10000 with no
/// debt) at or above the collateral bank's threshold is refused with
/// `NotUndercollateralized`; one below it is liquidated, unless the
/// repayment or payout overflows. The outcome is an abort only where one of
/// the program's products or sums overflows.
pub proof fn lemma_liquidation_decision(
    sol_data: Seq<u8>,
    usdc_data: Seq<u8>,
    u: User,
    cb: Bank,
    bb: Bank,
    collateral_mint: Key,
    borrowed_mint: Key,
    sol_wei: u64,
    usdc_wei: u64,
)
    requires
        pyth_price(sol_data) matches Ok((p, e)) && scaled_price(p, e) == Some(sol_wei),
        pyth_price(usdc_data) matches Ok((p, e)) && scaled_price(p, e) == Some(usdc_wei),
    ensures
        ({
            let o = liquidation(sol_data, usdc_data, u, cb, bb, collateral_mint, borrowed_mint);
            let c = u.deposited_sol + u.deposited_usdc;
            let d = u.borrowed_sol + u.borrowed_usdc;
            let fits = {
                &&& sol_wei * u.deposited_sol <= u64::MAX
                &&& usdc_wei * u.deposited_usdc <= u64::MAX
                &&& c <= u64::MAX
                &&& sol_wei * u.borrowed_sol <= u64::MAX
                &&& usdc_wei * u.borrowed_usdc <= u64::MAX
                &&& d <= u64::MAX
                &&& d > 0 ==> c * 10000 <= u64::MAX
            };
            let hf = if d > 0 { c * 10000 / d } else { 10000 };
            let amount = d * cb.liquidation_close_factor / 10000;
            let pay_fits = {
                &&& d * cb.liquidation_close_factor <= u64::MAX
                &&& amount * cb.liquidation_bonus <= u64::MAX
                &&& amount + amount * cb.liquidation_bonus / 10000 <= u64::MAX
            };
            &&& !fits ==> o is None
            &&& fits && hf >= cb.liquidation_threshold ==> o == Some(
                Err::<(Liquidation, User, Bank, Bank), ErrorCode>(ErrorCode::NotUndercollateralized),
            )
            &&& fits && hf < cb.liquidation_threshold ==> (o is None <==> !pay_fits)
            &&& fits && hf < cb.liquidation_threshold && pay_fits ==> (o matches Some(Ok(_)))
        }),
{
}

/// A bad price account refuses a liquidation with `InvalidPrice` before
/// anything else is looked at, the SOL account first.
pub proof fn lemma_liquidation_bad_price(
    sol_data: Seq<u8>,
    usdc_data: Seq<u8>,
    u: User,
    cb: Bank,
    bb: Bank,
    collateral_mint: Key,
    borrowed_mint: Key,
)
    requires
        pyth_price(sol_data) is Err || pyth_price(usdc_data) is Err,
    ensures
        liquidation(sol_data, usdc_data, u, cb, bb, collateral_mint, borrowed_mint) == Some(
            Err::<(Liquidation, User, Bank, Bank), ErrorCode>(ErrorCode::InvalidPrice),
        ),
{
}

/// How a borrow is decided once both prices are read and scaled, in terms of
/// the user's and bank's fields. A loan of the user's USDC mint is measured
/// against the SOL deposit plus the accrued value; a loan of any other mint
/// against the USDC deposit alone. Where that collateral can be valued, the
/// loan is refused with `OverBorrowableAmount` exactly when it exceeds the
/// liquidation threshold's share (basis points, rounded down) of it.
pub proof fn lemma_borrow_decision(
    sol_data: Seq<u8>,
    usdc_data: Seq<u8>,
    u: User,
    b: Bank,
    mint: Key,
    amount: u64,
    accrued_interest: u64,
    sol_wei: u64,
    usdc_wei: u64,
)
    requires
        pyth_price(sol_data) matches Ok((p, e)) && scaled_price(p, e) == Some(sol_wei),
        pyth_price(usdc_data) matches Ok((p, e)) && scaled_price(p, e) == Some(usdc_wei),
    ensures
        ({
            let o = borrowing(sol_data, usdc_data, u, b, mint, amount, accrued_interest);
            let refused = o == Some(Err::<(User, Bank), ErrorCode>(ErrorCode::OverBorrowableAmount));
            let sol_c = u.deposited_sol + accrued_interest;
            &&& mint@ == u.usdc_address@ && sol_c <= u64::MAX && sol_wei * sol_c <= u64::MAX && sol_c
                * b.liquidation_threshold <= u64::MAX ==> (refused <==> amount > sol_c
                * b.liquidation_threshold / 10000)
            &&& mint@ != u.usdc_address@ && usdc_wei * u.deposited_usdc <= u64::MAX && u.deposited_usdc
                * b.liquidation_threshold <= u64::MAX ==> (refused <==> amount > u.deposited_usdc
                * b.liquidation_threshold / 10000)
            &&& mint@ == u.usdc_address@ && !(sol_c <= u64::MAX && sol_wei * sol_c <= u64::MAX && sol_c
                * b.liquidation_threshold <= u64::MAX) ==> o is None
            &&& mint@ != u.usdc_address@ && !(usdc_wei * u.deposited_usdc <= u64::MAX && u.deposited_usdc
                * b.liquidation_threshold <= u64::MAX) ==> o is None
        }),
{
}

/// A completed borrow, in terms of the accounts it started from. The bank's
/// opening totals are its total borrowed and borrowed shares, or the loan
/// itself for both when it had lent nothing. The loan is credited with the
/// opening shares times the loan over the opening total (rounded down, zero
/// for a zero total), or zero shares where that product overflows. The bank's
/// total borrowed becomes the opening total plus the loan, its shares grow by
/// the loan's shares, and its deposits by what the accrued value exceeds the
/// SOL deposit by. The user's debt on the borrowed side grows by the loan,
/// and the loan's shares go to its USDC deposit shares for a USDC loan and to
/// its SOL borrow shares otherwise; nothing else changes.
pub proof fn lemma_borrow_accounting(
    sol_data: Seq<u8>,
    usdc_data: Seq<u8>,
    u: User,
    b: Bank,
    mint: Key,
    amount: u64,
    accrued_interest: u64,
)
    ensures
        borrowing(sol_data, usdc_data, u, b, mint, amount, accrued_interest) matches Some(Ok((nu, nb)))
            ==> {
            let total = if b.total_borrowed == 0 { amount as int } else { b.total_borrowed as int };
            let total_shares = if b.total_borrowed == 0 {
                amount as int
            } else {
                b.total_borrowed_shares as int
            };
            let ratio = if total == 0 { 0 } else { (amount as int) / total };
            let shares = if total_shares * ratio <= u64::MAX { total_shares * ratio } else { 0 };
            &&& nb.total_borrowed == total + amount
            &&& nb.total_borrowed_shares == total_shares + shares
            &&& nb.total_deposits == b.total_deposits + (if accrued_interest > u.deposited_sol {
                accrued_interest - u.deposited_sol
            } else {
                0
            })
            &&& nb == (Bank {
                total_borrowed: nb.total_borrowed,
                total_borrowed_shares: nb.total_borrowed_shares,
                total_deposits: nb.total_deposits,
                ..b
            })
            &&& mint@ == u.usdc_address@ ==> nu == (User {
                borrowed_usdc: (u.borrowed_usdc + amount) as u64,
                deposited_usdc_shares: (u.deposited_usdc_shares + shares) as u64,
                ..u
            }) && nu.borrowed_usdc == u.borrowed_usdc + amount && nu.deposited_usdc_shares
                == u.deposited_usdc_shares + shares
            &&& mint@ != u.usdc_address@ ==> nu == (User {
                borrowed_sol: (u.borrowed_sol + amount) as u64,
                borrowed_sol_shares: (u.borrowed_sol_shares + shares) as u64,
                ..u
            }) && nu.borrowed_sol == u.borrowed_sol + amount && nu.borrowed_sol_shares
                == u.borrowed_sol_shares + shares
        },
{
}

/// A price account longer than 116 bytes is refused exactly when the eight
/// price bytes at offset 108 are all zero.
pub proof fn lemma_price_refused_only_for_zero_bytes(d: Seq<u8>)
    requires
        d.len() > 116,
    ensures
        pyth_price(d) is Err <==> (forall|i: int| 108 <= i < 116 ==> d[i] == 0),
{
    if pyth_price(d) is Err {
        assert forall|i: int| 108 <= i < 116 implies d[i] == 0 by {}
    }
}

/// What a price read gives, in terms of the account's bytes: the exponent is
/// the four bytes at offset 20, least significant first, read as a
/// two's-complement `i32`; the price is the magnitude of the eight bytes at
/// offset 108 read as a two's-complement `i64` (the bytes themselves when the
/// top bit is clear, two to the 64th less them otherwise).
pub proof fn lemma_price_from_bytes(d: Seq<u8>)
    ensures
        pyth_price(d) matches Ok((price, expo)) ==> {
            let e = d[20] + d[21] * 0x100 + d[22] * 0x1_0000 + d[23] * 0x100_0000;
            let p = d[108] + d[109] * 0x100 + d[110] * 0x1_0000 + d[111] * 0x100_0000 + d[112]
                * 0x1_0000_0000 + d[113] * 0x100_0000_0000 + d[114] * 0x1_0000_0000_0000 + d[115]
                * 0x100_0000_0000_0000;
            &&& d.len() > 116
            &&& expo == (if d[23] < 0x80 { e } else { e - 0x1_0000_0000 })
            &&& price == (if d[115] < 0x80 { p } else { 0x1_0000_0000_0000_0000 - p })
        },
{
}

/// Scaling by a zero exponent leaves the price alone, and each further
/// decimal multiplies the scaled price by ten, as far as it fits; positive
/// exponents and exponents below -19 never scale.
pub proof fn lemma_scaling_by_powers_of_ten(price: u64, expo: i32)
    ensures
        scaled_price(price, 0) == Some(price),
        expo > 0 || expo < -19 ==> scaled_price(price, expo) is None,
        -19 < expo <= 0 ==> (scaled_price(price, (expo - 1) as i32) matches Some(w1) ==> scaled_price(
            price,
            expo,
        ) matches Some(w) && w1 == 10 * w),
        -19 < expo <= 0 ==> (scaled_price(price, expo) matches Some(w) ==> (scaled_price(
            price,
            (expo - 1) as i32,
        ) is Some <==> 10 * w <= u64::MAX)),
{
    assert(crate::lending::price::pow10(0) == 1);
    assert((-(0i32)) as nat == 0);
    if -19 < expo <= 0 {
        let n = (-expo) as nat;
        assert(crate::lending::price::pow10(n + 1) == 10 * crate::lending::price::pow10(n));
        let p = price as int;
        let q = crate::lending::price::pow10(n) as int;
        assert(p * (10 * q) == 10 * (p * q)) by (nonlinear_arith);
        assert(p * q >= 0) by (nonlinear_arith)
            requires p >= 0, q >= 0;
        assert(((expo - 1) as i32) as int == expo - 1);
        assert((-((expo - 1) as i32)) as nat == n + 1);
    }
}

/// A bad price account refuses a borrow with `InvalidPrice` before anything
/// else is looked at.
pub proof fn lemma_borrow_bad_price(
    sol_data: Seq<u8>,
    usdc_data: Seq<u8>,
    u: User,
    b: Bank,
    mint: Key,
    amount: u64,
    accrued_interest: u64,
)
    requires
        pyth_price(sol_data) is Err || pyth_price(usdc_data) is Err,
    ensures
        borrowing(sol_data, usdc_data, u, b, mint, amount, accrued_interest) == Some(
            Err::<(User, Bank), ErrorCode>(ErrorCode::InvalidPrice),
        ),
{
}

/// A loan within the limit goes through unless one of the program's sums
/// overflows: the bank's opening total plus the loan, its opening shares plus
/// the loan's shares, its deposits plus the interest earned, or the user's
/// debt or shares on the borrowed side plus the loan or its shares.
pub proof fn lemma_borrow_aborts_only_on_overflow(
    sol_data: Seq<u8>,
    usdc_data: Seq<u8>,
    u: User,
    b: Bank,
    mint: Key,
    amount: u64,
    accrued_interest: u64,
    sol_wei: u64,
    usdc_wei: u64,
)
    requires
        pyth_price(sol_data) matches Ok((p, e)) && scaled_price(p, e) == Some(sol_wei),
        pyth_price(usdc_data) matches Ok((p, e)) && scaled_price(p, e) == Some(usdc_wei),
        mint@ == u.usdc_address@ ==> {
            let c = u.deposited_sol + accrued_interest;
            &&& c <= u64::MAX
            &&& sol_wei * c <= u64::MAX
            &&& c * b.liquidation_threshold <= u64::MAX
            &&& amount <= c * b.liquidation_threshold / 10000
        },
        mint@ != u.usdc_address@ ==> {
            &&& usdc_wei * u.deposited_usdc <= u64::MAX
            &&& u.deposited_usdc * b.liquidation_threshold <= u64::MAX
            &&& amount <= u.deposited_usdc * b.liquidation_threshold / 10000
        },
    ensures
        ({
            let o = borrowing(sol_data, usdc_data, u, b, mint, amount, accrued_interest);
            let total = if b.total_borrowed == 0 { amount as int } else { b.total_borrowed as int };
            let total_shares = if b.total_borrowed == 0 {
                amount as int
            } else {
                b.total_borrowed_shares as int
            };
            let ratio = if total == 0 { 0 } else { (amount as int) / total };
            let shares = if total_shares * ratio <= u64::MAX { total_shares * ratio } else { 0 };
            let interest = if accrued_interest > u.deposited_sol {
                accrued_interest - u.deposited_sol
            } else {
                0
            };
            let fits = {
                &&& total + amount <= u64::MAX
                &&& total_shares + shares <= u64::MAX
                &&& b.total_deposits + interest <= u64::MAX
                &&& mint@ == u.usdc_address@ ==> u.borrowed_usdc + amount <= u64::MAX
                    && u.deposited_usdc_shares + shares <= u64::MAX
                &&& mint@ != u.usdc_address@ ==> u.borrowed_sol + amount <= u64::MAX
                    && u.borrowed_sol_shares + shares <= u64::MAX
            };
            &&& !fits ==> o is None
            &&& fits ==> (o matches Some(Ok(_)))
        }),
{
}

} // verus!
