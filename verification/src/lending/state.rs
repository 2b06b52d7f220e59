//! The lending accounts, as far as the instructions read and write them.
use vstd::prelude::*;
use crate::key::Key;

verus! {

/// A user's position in the pool: what it deposited and borrowed of each asset.
#[derive(Clone, Copy, Debug, PartialEq, Eq)]
pub struct User {
    pub deposited_sol: u64,
    pub deposited_sol_shares: u64,
    pub borrowed_sol: u64,
    pub borrowed_sol_shares: u64,
    pub deposited_usdc: u64,
    pub deposited_usdc_shares: u64,
    pub borrowed_usdc: u64,
    pub borrowed_usdc_shares: u64,
    /// The mint that the position treats as USDC; every other mint counts as SOL.
    pub usdc_address: Key,
    /// Collateral over debt, in basis points (10000 when nothing is borrowed).
    pub health_factor: u64,
    pub last_updated: i64,
}

/// A lending pool for one mint.
#[derive(Clone, Copy, Debug, PartialEq, Eq)]
pub struct Bank {
    pub total_deposits: u64,
    pub total_deposit_shares: u64,
    pub total_borrowed: u64,
    pub total_borrowed_shares: u64,
    /// Health factor (basis points) below which positions may be liquidated;
    /// also the share of collateral (basis points) that may be borrowed.
    pub liquidation_threshold: u64,
    /// Extra collateral (basis points of the repaid amount) paid to a liquidator.
    pub liquidation_bonus: u64,
    /// Share of the debt (basis points) that one liquidation repays.
    pub liquidation_close_factor: u64,
    pub max_ltv: u64,
    pub last_updated: i64,
    pub interest_rate: u64,
}

} // verus!
