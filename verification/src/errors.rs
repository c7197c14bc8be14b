//! The error taxonomy for vault operations.

use vstd::prelude::*;

verus! {

/// Every way a vault operation can fail.
///
/// `InvalidAmount`, `InsufficientBalance` and `Unauthorized` are precondition
/// failures; `ArithmeticOverflow` and `ArithmeticUnderflow` report a checked
/// add or subtract that would leave the numeric range. `AlreadyInitialized`
/// and `TransferFailed` are surfaced by the host integration (the storage
/// layer enforces once-only initialization and the transfer service moves the
/// actual asset); the core operations themselves never return them.
#[derive(Clone, Copy, Debug, PartialEq, Eq, Structural)]
pub enum VaultError {
    /// A zero (non-positive) amount was supplied where a positive one is required.
    InvalidAmount,
    /// A withdrawal or lock would exceed the funds available for it.
    InsufficientBalance,
    /// The caller is not the vault operator, or not the owner of the position.
    Unauthorized,
    /// A checked addition would exceed the numeric range.
    ArithmeticOverflow,
    /// A checked subtraction would fall below zero.
    ArithmeticUnderflow,
    /// The vault aggregate already exists (reported by the host storage layer).
    AlreadyInitialized,
    /// The external asset transfer failed (reported by the host transfer service).
    TransferFailed,
}

} // verus!
