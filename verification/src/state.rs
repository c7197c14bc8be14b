//! The two persistent records of the ledger: the vault aggregate and the
//! per-user position.

use vstd::prelude::*;

verus! {

/// An account identity, as handed to the core by the host's identity service.
///
/// The value `0` is reserved as the nil identity: a freshly allocated position
/// record carries it until its first deposit binds the record to its owner,
/// so no real account may use it.
#[derive(Clone, Copy, Debug, PartialEq, Eq, Structural)]
pub struct AccountId {
    pub id: u128,
}

impl AccountId {
    /// True of the reserved "no owner yet" identity.
    pub open spec fn is_nil(self) -> bool {
        self.id == 0
    }
}

/// The singleton vault aggregate: the total custodial balance and the
/// identity of the trusted operator.
#[derive(Clone, Copy, Debug, PartialEq, Eq, Structural)]
pub struct Vault {
    /// The single trusted identity permitted to lock and settle wagers.
    pub authority: AccountId,
    /// The denomination this vault custodies.
    pub usdc_mint: AccountId,
    /// Sum of `deposited` over all positions; every mutation of a position's
    /// `deposited` is paired with an equal mutation here.
    pub total_deposits: u64,
    /// Host storage discriminator for the vault record.
    pub bump: u8,
}

/// One user's balance record: funds available to the user and the subset
/// currently committed to an outstanding wager.
#[derive(Clone, Copy, Debug, PartialEq, Eq, Structural)]
pub struct UserPosition {
    /// The user this record belongs to; nil until the first deposit.
    pub owner: AccountId,
    /// Funds available to the user, including currently locked funds.
    pub deposited: u64,
    /// Subset of `deposited` committed to an outstanding wager.
    pub locked: u64,
    /// Timestamp of the most recent mutation.
    pub last_update: i64,
    /// Host storage discriminator for the position record.
    pub bump: u8,
}

impl UserPosition {
    /// The position invariant: locked funds are a subset of deposited funds.
    pub open spec fn wf(self) -> bool {
        self.locked <= self.deposited
    }
}

} // verus!
