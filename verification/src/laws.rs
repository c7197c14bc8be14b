//! Laws relating several operations, proved from the operations' own
//! transition specifications.

use vstd::prelude::*;
use crate::ops::{
    deposit_post, settle_post, spec_winnings, withdraw_accepted, withdraw_post,
};
use crate::state::{AccountId, UserPosition, Vault};

verus! {

/// A successful deposit always leaves the position able to withdraw the same
/// amount again: every precondition of the withdrawal holds in the
/// post-deposit state.
pub proof fn lemma_deposit_enables_withdraw(
    v0: Vault,
    p0: UserPosition,
    v1: Vault,
    p1: UserPosition,
    user: AccountId,
    user_bump: u8,
    amount: u64,
    now: i64,
)
    requires
        amount > 0,
        deposit_post(v0, p0, v1, p1, user, user_bump, amount, now),
    ensures
        withdraw_accepted(v1, p1, user, amount),
{
}

/// Round trip: a deposit followed by a withdrawal of the same amount, with no
/// intervening lock, restores the position's balances and the aggregate total
/// to their prior values (only the timestamp moves on).
pub proof fn lemma_deposit_withdraw_round_trip(
    v0: Vault,
    p0: UserPosition,
    v1: Vault,
    p1: UserPosition,
    v2: Vault,
    p2: UserPosition,
    user: AccountId,
    user_bump: u8,
    amount: u64,
    now1: i64,
    now2: i64,
)
    requires
        deposit_post(v0, p0, v1, p1, user, user_bump, amount, now1),
        withdraw_post(v1, p1, v2, p2, amount, now2),
    ensures
        v2.authority == v0.authority,
        v2.usdc_mint == v0.usdc_mint,
        v2.bump == v0.bump,
        v2.total_deposits == v0.total_deposits,
        p2.owner == user,
        p2.deposited == p0.deposited,
        p2.locked == p0.locked,
{
}

/// Break-even settlement: a won wager whose payout exactly equals the stake
/// changes no balance beyond releasing the stake from the locked subset.
pub proof fn lemma_settle_break_even(
    v0: Vault,
    p0: UserPosition,
    v1: Vault,
    p1: UserPosition,
    stake: u64,
    payout: u64,
    now: i64,
)
    requires
        payout == stake,
        settle_post(v0, p0, v1, p1, stake, true, payout, now),
    ensures
        v1.total_deposits == v0.total_deposits,
        p1.deposited == p0.deposited,
        p1.locked == p0.locked - stake,
{
    assert(spec_winnings(stake, payout) == 0);
}

} // verus!
