//! Errors that the lending instructions return.
use vstd::prelude::*;

verus! {

/// Why a lending instruction was refused.
#[derive(Clone, Copy, Debug, PartialEq, Eq)]
pub enum ErrorCode {
    /// A price account is too short or holds a zero price.
    InvalidPrice,
    /// The requested loan exceeds what the collateral allows.
    OverBorrowableAmount,
    /// The position is healthy enough that it cannot be liquidated.
    NotUndercollateralized,
}

} // verus!
