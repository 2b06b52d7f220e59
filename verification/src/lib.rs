//! Verified core of two Solana programs: an over-collateralised lending pool
//! (borrowing and liquidation against Pyth prices) and a token vesting schedule.
//!
//! Account handling, token transfers and clock reads live in the program shell;
//! everything that decides amounts and new account states is here.
pub mod key;
pub mod lending;
pub mod vesting;
