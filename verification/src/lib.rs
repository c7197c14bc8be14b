//! A verified escrow ledger for a single-denomination custodial pool.
//!
//! The library tracks user-deposited funds in per-user position records and a
//! singleton vault aggregate, lets a trusted operator lock a user's funds
//! against an outstanding wager, and settles that wager by crediting winnings
//! or debiting the lost stake. Every balance-mutating operation is verified:
//! it either commits completely, with its effect pinned down by its contract,
//! or fails with a specific error and leaves all state unchanged.
//!
//! The host execution environment (asset transfer, signature verification,
//! persistent storage, event delivery) is out of scope: operations take the
//! verified caller identity and the current timestamp as plain arguments and
//! return the event describing the change for the host to emit.

pub mod errors;
pub mod events;
pub mod laws;
pub mod ledger;
pub mod ops;
pub mod state;
