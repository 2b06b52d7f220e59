//! The lending pool: price decoding, borrowing and liquidation.
pub mod error;
pub mod state;
pub mod price;
pub mod liquidate;
pub mod borrow;
pub mod laws;
