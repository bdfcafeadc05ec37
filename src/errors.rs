//! The ways in which an operation on the bond can be refused.
use vstd::prelude::*;

verus! {

/// Why an operation was refused. A refused operation leaves the state as it was.
#[derive(Clone, Copy, Debug, PartialEq, Eq, Structural)]
pub enum BondError {
    /// No admin has been set, or a configuration that the operation needs is missing.
    NotInitialized,
    /// The caller is not the required admin or governance principal.
    Unauthorized,
    /// A fee or penalty rate above 10000 basis points.
    InvalidConfig,
    /// The amount exceeds what is available (bonded minus slashed).
    InsufficientBalance,
    /// The operation is not allowed at this point of the bond's lifetime.
    InvalidTiming,
    /// A checked addition, subtraction or multiplication would overflow.
    ArithmeticOverflow,
    /// There is no bond, or no emergency record with the given id.
    NotFound,
    /// An amount that must be positive (or non-negative) is not.
    InvalidAmount,
}

} // verus!
