//! The immutable audit events, one per completed operation.
//!
//! The core returns the event of a successful operation to its caller; the
//! host's event sink is responsible for appending it to the audit trail.

use vstd::prelude::*;
use crate::state::AccountId;

verus! {

/// Emitted by a successful deposit.
#[derive(Clone, Copy, Debug, PartialEq, Eq, Structural)]
pub struct DepositEvent {
    pub user: AccountId,
    pub amount: u64,
    /// The user's cumulative deposited balance after this deposit.
    pub total_deposited: u64,
    pub timestamp: i64,
}

/// Emitted by a successful withdrawal.
#[derive(Clone, Copy, Debug, PartialEq, Eq, Structural)]
pub struct WithdrawEvent {
    pub user: AccountId,
    pub amount: u64,
    /// The user's deposited balance remaining after this withdrawal.
    pub remaining: u64,
    pub timestamp: i64,
}

/// Emitted when the operator locks funds against a wager.
#[derive(Clone, Debug)]
pub struct BetLockedEvent {
    pub user: AccountId,
    pub amount: u64,
    pub bet_id: String,
    pub timestamp: i64,
}

/// Emitted when the operator settles a wager.
#[derive(Clone, Debug)]
pub struct BetSettledEvent {
    pub user: AccountId,
    pub bet_id: String,
    pub stake: u64,
    pub won: bool,
    pub payout: u64,
    pub timestamp: i64,
}

} // verus!
