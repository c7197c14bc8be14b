//! The five accounting operations: initialize, deposit, withdraw, lock, settle.
//!
//! Each operation is a single atomic unit of work on the records it names: it
//! validates every precondition before mutating anything, so a failure leaves
//! the vault and the position exactly as they were. The host performs the
//! external asset transfer (before the local mutation for a deposit, around it
//! for a withdrawal) and passes in the verified caller identity and the
//! current timestamp; the core returns the audit event for the host to emit.
//!
//! For every operation `op` there are three spec-level companions:
//! `op_accepted` says exactly on which inputs the operation succeeds,
//! `op_error` which error it reports otherwise, and `op_post` how the
//! post-state relates to the pre-state on success.

use vstd::prelude::*;
use crate::errors::VaultError;
use crate::events::{BetLockedEvent, BetSettledEvent, DepositEvent, WithdrawEvent};
use crate::state::{AccountId, UserPosition, Vault};

verus! {

/// Create the vault aggregate with an empty custodial pool.
///
/// The host storage layer enforces that this runs exactly once per ledger
/// (reporting `AlreadyInitialized` otherwise); the core is never asked to
/// initialize the same ledger twice.
pub fn initialize(authority: AccountId, usdc_mint: AccountId, bump: u8) -> (v: Vault)
    ensures
        v == (Vault { authority, usdc_mint, total_deposits: 0u64, bump }),
{
    Vault { authority, usdc_mint, total_deposits: 0, bump }
}

/// Exactly when a deposit succeeds: a positive amount, a position that is the
/// depositor's own (or still unbound), and room in both balances.
pub open spec fn deposit_accepted(v: Vault, p: UserPosition, user: AccountId, amount: u64) -> bool {
    &&& amount > 0
    &&& (p.owner == user || p.owner.is_nil())
    &&& p.deposited + amount <= u64::MAX
    &&& v.total_deposits + amount <= u64::MAX
}

/// The error a failing deposit reports, by the first violated precondition.
pub open spec fn deposit_error(v: Vault, p: UserPosition, user: AccountId, amount: u64) -> VaultError {
    if amount == 0 {
        VaultError::InvalidAmount
    } else if !(p.owner == user || p.owner.is_nil()) {
        VaultError::Unauthorized
    } else {
        VaultError::ArithmeticOverflow
    }
}

/// How a successful deposit transforms the vault and the position: `amount`
/// is credited to both balances, a fresh record is bound to its owner, and
/// the position is stamped with `now`.
pub open spec fn deposit_post(
    v0: Vault,
    p0: UserPosition,
    v1: Vault,
    p1: UserPosition,
    user: AccountId,
    user_bump: u8,
    amount: u64,
    now: i64,
) -> bool {
    &&& v1.authority == v0.authority
    &&& v1.usdc_mint == v0.usdc_mint
    &&& v1.bump == v0.bump
    &&& v1.total_deposits == v0.total_deposits + amount
    &&& p1.owner == user
    &&& p1.bump == (if p0.owner.is_nil() { user_bump } else { p0.bump })
    &&& p1.deposited == p0.deposited + amount
    &&& p1.locked == p0.locked
    &&& p1.last_update == now
}

/// Deposit `amount` into `user`'s position and the custodial pool.
///
/// The host has already moved `amount` from the user's external custody into
/// the pool custody (aborting on transfer failure before calling this), and
/// has created the position record lazily on the user's first deposit: a
/// fresh record arrives with the nil owner and zero balances and is bound to
/// `user` here.
pub fn deposit(
    vault: &mut Vault,
    position: &mut UserPosition,
    user: AccountId,
    user_bump: u8,
    amount: u64,
    now: i64,
) -> (r: Result<DepositEvent, VaultError>)
    ensures
        r is Ok <==> deposit_accepted(*old(vault), *old(position), user, amount),
        r is Ok ==> deposit_post(
            *old(vault),
            *old(position),
            *final(vault),
            *final(position),
            user,
            user_bump,
            amount,
            now,
        ),
        r is Ok ==> r->Ok_0 == (DepositEvent {
            user,
            amount,
            total_deposited: final(position).deposited,
            timestamp: now,
        }),
        r is Err ==> *final(vault) == *old(vault) && *final(position) == *old(position),
        r is Err ==> r->Err_0 == deposit_error(*old(vault), *old(position), user, amount),
        old(position).wf() ==> final(position).wf(),
{
    if amount == 0 {
        return Err(VaultError::InvalidAmount);
    }
    let fresh = position.owner.id == 0;
    if !(position.owner == user || fresh) {
        return Err(VaultError::Unauthorized);
    }
    let new_deposited = match position.deposited.checked_add(amount) {
        Some(d) => d,
        None => {
            return Err(VaultError::ArithmeticOverflow);
        },
    };
    let new_total = match vault.total_deposits.checked_add(amount) {
        Some(t) => t,
        None => {
            return Err(VaultError::ArithmeticOverflow);
        },
    };
    if fresh {
        position.owner = user;
        position.bump = user_bump;
    }
    position.deposited = new_deposited;
    position.last_update = now;
    vault.total_deposits = new_total;
    Ok(DepositEvent { user, amount, total_deposited: new_deposited, timestamp: now })
}

/// Exactly when a withdrawal succeeds. The balance check is against the full
/// `deposited`, not against `deposited - locked`: this layer deliberately does
/// not block withdrawing currently locked funds. The check against
/// `total_deposits` is defensive; it cannot fail while the aggregate equals
/// the sum of all positions.
pub open spec fn withdraw_accepted(v: Vault, p: UserPosition, caller: AccountId, amount: u64) -> bool {
    &&& caller == p.owner
    &&& amount > 0
    &&& p.deposited >= amount
    &&& v.total_deposits >= amount
}

/// The error a failing withdrawal reports, by the first violated precondition.
pub open spec fn withdraw_error(v: Vault, p: UserPosition, caller: AccountId, amount: u64) -> VaultError {
    if caller != p.owner {
        VaultError::Unauthorized
    } else if amount == 0 {
        VaultError::InvalidAmount
    } else if p.deposited < amount {
        VaultError::InsufficientBalance
    } else {
        VaultError::ArithmeticUnderflow
    }
}

/// How a successful withdrawal transforms the vault and the position:
/// `amount` is debited from both balances, locked funds are untouched.
pub open spec fn withdraw_post(
    v0: Vault,
    p0: UserPosition,
    v1: Vault,
    p1: UserPosition,
    amount: u64,
    now: i64,
) -> bool {
    &&& v1.authority == v0.authority
    &&& v1.usdc_mint == v0.usdc_mint
    &&& v1.bump == v0.bump
    &&& v1.total_deposits == v0.total_deposits - amount
    &&& p1.owner == p0.owner
    &&& p1.bump == p0.bump
    &&& p1.deposited == p0.deposited - amount
    &&& p1.locked == p0.locked
    &&& p1.last_update == now
}

/// Withdraw `amount` from `caller`'s position and the custodial pool.
///
/// On success the host moves `amount` from the pool custody back to the user,
/// authorized by the pool's own custodial authority; a transfer failure aborts
/// the whole operation. Note that the position invariant `locked <= deposited`
/// is only preserved when `amount` stays within the free (unlocked) balance:
/// this layer permits withdrawing locked funds (see `withdraw_accepted`).
pub fn withdraw(
    vault: &mut Vault,
    position: &mut UserPosition,
    caller: AccountId,
    amount: u64,
    now: i64,
) -> (r: Result<WithdrawEvent, VaultError>)
    ensures
        r is Ok <==> withdraw_accepted(*old(vault), *old(position), caller, amount),
        r is Ok ==> withdraw_post(
            *old(vault),
            *old(position),
            *final(vault),
            *final(position),
            amount,
            now,
        ),
        r is Ok ==> r->Ok_0 == (WithdrawEvent {
            user: caller,
            amount,
            remaining: final(position).deposited,
            timestamp: now,
        }),
        r is Err ==> *final(vault) == *old(vault) && *final(position) == *old(position),
        r is Err ==> r->Err_0 == withdraw_error(*old(vault), *old(position), caller, amount),
        old(position).wf() && amount + old(position).locked <= old(position).deposited
            ==> final(position).wf(),
{
    if !(caller == position.owner) {
        return Err(VaultError::Unauthorized);
    }
    if amount == 0 {
        return Err(VaultError::InvalidAmount);
    }
    if position.deposited < amount {
        return Err(VaultError::InsufficientBalance);
    }
    let new_total = match vault.total_deposits.checked_sub(amount) {
        Some(t) => t,
        None => {
            return Err(VaultError::ArithmeticUnderflow);
        },
    };
    position.deposited = position.deposited - amount;
    position.last_update = now;
    vault.total_deposits = new_total;
    Ok(WithdrawEvent { user: caller, amount, remaining: position.deposited, timestamp: now })
}

/// Exactly when a lock succeeds: the operator asks for a positive amount that
/// the free (unlocked) balance covers. A lock never moves custody, so the
/// vault aggregate is read only for the authority check.
pub open spec fn lock_accepted(v: Vault, p: UserPosition, caller: AccountId, amount: u64) -> bool {
    &&& caller == v.authority
    &&& amount > 0
    &&& p.locked + amount <= p.deposited
}

/// The error a failing lock reports, by the first violated precondition.
pub open spec fn lock_error(v: Vault, p: UserPosition, caller: AccountId, amount: u64) -> VaultError {
    if caller != v.authority {
        VaultError::Unauthorized
    } else if amount == 0 {
        VaultError::InvalidAmount
    } else {
        VaultError::InsufficientBalance
    }
}

/// How a successful lock transforms the position: `amount` moves from the
/// free balance into the locked subset; `deposited` is unchanged.
pub open spec fn lock_post(p0: UserPosition, p1: UserPosition, amount: u64, now: i64) -> bool {
    &&& p1.owner == p0.owner
    &&& p1.bump == p0.bump
    &&& p1.deposited == p0.deposited
    &&& p1.locked == p0.locked + amount
    &&& p1.last_update == now
}

/// Reserve `amount` of the position's free balance against the wager
/// `bet_id`. Only the vault authority may lock; custody does not move.
///
/// A successful lock establishes the position invariant outright: the new
/// locked total was just checked to fit within `deposited`.
pub fn lock_for_bet(
    vault: &Vault,
    position: &mut UserPosition,
    caller: AccountId,
    amount: u64,
    bet_id: String,
    now: i64,
) -> (r: Result<BetLockedEvent, VaultError>)
    ensures
        r is Ok <==> lock_accepted(*vault, *old(position), caller, amount),
        r is Ok ==> lock_post(*old(position), *final(position), amount, now),
        r is Ok ==> {
            &&& r->Ok_0.user == old(position).owner
            &&& r->Ok_0.amount == amount
            &&& r->Ok_0.bet_id@ == bet_id@
            &&& r->Ok_0.timestamp == now
        },
        r is Err ==> *final(position) == *old(position),
        r is Err ==> r->Err_0 == lock_error(*vault, *old(position), caller, amount),
        r is Ok ==> final(position).wf(),
{
    if !(caller == vault.authority) {
        return Err(VaultError::Unauthorized);
    }
    if amount == 0 {
        return Err(VaultError::InvalidAmount);
    }
    let new_locked = match position.locked.checked_add(amount) {
        Some(l) => l,
        None => {
            // The locked total would exceed u64::MAX >= deposited, so the
            // free balance cannot cover it.
            return Err(VaultError::InsufficientBalance);
        },
    };
    if position.deposited < new_locked {
        return Err(VaultError::InsufficientBalance);
    }
    position.locked = new_locked;
    position.last_update = now;
    Ok(BetLockedEvent { user: position.owner, amount, bet_id, timestamp: now })
}

/// The net amount credited to the user on a won wager: the payout less the
/// returned stake, clamped at zero (a payout below the stake is treated as
/// zero winnings, never as a debit).
pub open spec fn spec_winnings(stake: u64, payout: u64) -> u64 {
    if payout >= stake {
        (payout - stake) as u64
    } else {
        0u64
    }
}

/// Exactly when a settlement succeeds: the operator names a stake within the
/// locked balance, and the resulting credit or debit stays in range. While
/// the position invariant and the aggregate-sum invariant hold, the loss-path
/// range conditions follow from `p.locked >= stake`.
pub open spec fn settle_accepted(
    v: Vault,
    p: UserPosition,
    caller: AccountId,
    stake: u64,
    won: bool,
    payout: u64,
) -> bool {
    &&& caller == v.authority
    &&& p.locked >= stake
    &&& (won ==> p.deposited + spec_winnings(stake, payout) <= u64::MAX
        && v.total_deposits + spec_winnings(stake, payout) <= u64::MAX)
    &&& (!won ==> p.deposited >= stake && v.total_deposits >= stake)
}

/// The error a failing settlement reports, by the first violated precondition.
pub open spec fn settle_error(
    v: Vault,
    p: UserPosition,
    caller: AccountId,
    stake: u64,
    won: bool,
    payout: u64,
) -> VaultError {
    if caller != v.authority {
        VaultError::Unauthorized
    } else if p.locked < stake {
        VaultError::InvalidAmount
    } else if won {
        VaultError::ArithmeticOverflow
    } else {
        VaultError::ArithmeticUnderflow
    }
}

/// How a successful settlement transforms the vault and the position: the
/// stake is unconditionally released from the locked subset; a win credits
/// the clamped winnings to both balances, a loss debits the stake from both.
pub open spec fn settle_post(
    v0: Vault,
    p0: UserPosition,
    v1: Vault,
    p1: UserPosition,
    stake: u64,
    won: bool,
    payout: u64,
    now: i64,
) -> bool {
    &&& v1.authority == v0.authority
    &&& v1.usdc_mint == v0.usdc_mint
    &&& v1.bump == v0.bump
    &&& p1.owner == p0.owner
    &&& p1.bump == p0.bump
    &&& p1.locked == p0.locked - stake
    &&& p1.last_update == now
    &&& (won ==> p1.deposited == p0.deposited + spec_winnings(stake, payout)
        && v1.total_deposits == v0.total_deposits + spec_winnings(stake, payout))
    &&& (!won ==> p1.deposited == p0.deposited - stake
        && v1.total_deposits == v0.total_deposits - stake)
}

/// Settle the wager `bet_id`: release `stake` from the locked balance and
/// apply the outcome. On a win, `payout` is the total owed to the user
/// inclusive of their own stake, so the net credit is `payout - stake`
/// clamped at zero; on a loss the stake is debited from the user and the
/// pool. Only the vault authority may settle. No partial settlement is ever
/// persisted: a range violation fails the whole operation untouched.
pub fn settle_bet(
    vault: &mut Vault,
    position: &mut UserPosition,
    caller: AccountId,
    bet_id: String,
    stake: u64,
    won: bool,
    payout: u64,
    now: i64,
) -> (r: Result<BetSettledEvent, VaultError>)
    ensures
        r is Ok <==> settle_accepted(*old(vault), *old(position), caller, stake, won, payout),
        r is Ok ==> settle_post(
            *old(vault),
            *old(position),
            *final(vault),
            *final(position),
            stake,
            won,
            payout,
            now,
        ),
        r is Ok ==> {
            &&& r->Ok_0.user == old(position).owner
            &&& r->Ok_0.bet_id@ == bet_id@
            &&& r->Ok_0.stake == stake
            &&& r->Ok_0.won == won
            &&& r->Ok_0.payout == payout
            &&& r->Ok_0.timestamp == now
        },
        r is Err ==> *final(vault) == *old(vault) && *final(position) == *old(position),
        r is Err ==> r->Err_0 == settle_error(*old(vault), *old(position), caller, stake, won, payout),
        old(position).wf() && r is Ok ==> final(position).wf(),
{
    if !(caller == vault.authority) {
        return Err(VaultError::Unauthorized);
    }
    if position.locked < stake {
        return Err(VaultError::InvalidAmount);
    }
    if won {
        // The payout includes the original stake; only the excess is new money.
        let winnings = if payout >= stake {
            payout - stake
        } else {
            0
        };
        let new_deposited = match position.deposited.checked_add(winnings) {
            Some(d) => d,
            None => {
                return Err(VaultError::ArithmeticOverflow);
            },
        };
        let new_total = match vault.total_deposits.checked_add(winnings) {
            Some(t) => t,
            None => {
                return Err(VaultError::ArithmeticOverflow);
            },
        };
        position.locked = position.locked - stake;
        position.deposited = new_deposited;
        vault.total_deposits = new_total;
    } else {
        let new_deposited = match position.deposited.checked_sub(stake) {
            Some(d) => d,
            None => {
                return Err(VaultError::ArithmeticUnderflow);
            },
        };
        let new_total = match vault.total_deposits.checked_sub(stake) {
            Some(t) => t,
            None => {
                return Err(VaultError::ArithmeticUnderflow);
            },
        };
        position.locked = position.locked - stake;
        position.deposited = new_deposited;
        vault.total_deposits = new_total;
    }
    position.last_update = now;
    Ok(BetSettledEvent { user: position.owner, bet_id, stake, won, payout, timestamp: now })
}

} // verus!
