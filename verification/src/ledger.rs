//! The whole-ledger model: the vault aggregate together with every position.
//!
//! The host's record store holds one vault and one position per user; this
//! module models that store so the cross-record invariant can be stated and
//! proved: `wf` says the vault's `total_deposits` equals the sum of
//! `deposited` over all positions, owners are unique and never nil. Every
//! operation here preserves `wf`, so the aggregate equals the sum of the
//! positions at every observation point between operations, whatever sequence
//! of operations ran.
//!
//! The per-position invariant `locked <= deposited` is tracked separately by
//! `positions_well_formed`, because withdrawal deliberately does not block
//! withdrawing currently locked funds: it is preserved by every operation
//! except a withdrawal that dips into the locked balance.

use vstd::prelude::*;
use vstd::pervasive::VecAdditionalExecFns;
use crate::errors::VaultError;
use crate::events::{BetLockedEvent, BetSettledEvent, DepositEvent, WithdrawEvent};
use crate::ops;
use crate::ops::spec_winnings;
use crate::state::{AccountId, UserPosition, Vault};

verus! {

/// The sum of `deposited` over a sequence of positions.
pub open spec fn sum_deposited(s: Seq<UserPosition>) -> int
    decreases s.len(),
{
    if s.len() == 0 {
        0
    } else {
        sum_deposited(s.drop_last()) + s.last().deposited
    }
}

/// No two positions in the sequence belong to the same owner.
pub open spec fn owners_unique_in(s: Seq<UserPosition>) -> bool {
    forall|i: int, j: int| 0 <= i < j < s.len() ==> s[i].owner != s[j].owner
}

/// Some position in the sequence belongs to `user`.
pub open spec fn has_owner(s: Seq<UserPosition>, user: AccountId) -> bool {
    exists|i: int| 0 <= i < s.len() && s[i].owner == user
}

/// The index of `user`'s position; meaningful only under `has_owner` and
/// uniquely determined under `owners_unique_in`.
pub open spec fn owner_index(s: Seq<UserPosition>, user: AccountId) -> int {
    choose|i: int| 0 <= i < s.len() && s[i].owner == user
}

/// The position belonging to `user`; meaningful only under `has_owner`.
pub open spec fn position_for(s: Seq<UserPosition>, user: AccountId) -> UserPosition {
    s[owner_index(s, user)]
}

proof fn lemma_sum_nonneg(s: Seq<UserPosition>)
    ensures
        sum_deposited(s) >= 0,
    decreases s.len(),
{
    if s.len() > 0 {
        lemma_sum_nonneg(s.drop_last());
    }
}

/// Each position's deposited balance is bounded by the sum over the sequence.
proof fn lemma_sum_bound(s: Seq<UserPosition>, i: int)
    requires
        0 <= i < s.len(),
    ensures
        s[i].deposited <= sum_deposited(s),
    decreases s.len(),
{
    if i == s.len() - 1 {
        lemma_sum_nonneg(s.drop_last());
    } else {
        lemma_sum_bound(s.drop_last(), i);
        assert(s.drop_last()[i] == s[i]);
        assert(sum_deposited(s) == sum_deposited(s.drop_last()) + s.last().deposited);
    }
}

/// Replacing one position changes the sum by the difference in `deposited`.
proof fn lemma_sum_update(s: Seq<UserPosition>, i: int, p: UserPosition)
    requires
        0 <= i < s.len(),
    ensures
        sum_deposited(s.update(i, p)) == sum_deposited(s) - s[i].deposited + p.deposited,
    decreases s.len(),
{
    let t = s.update(i, p);
    if i == s.len() - 1 {
        assert(t.drop_last() =~= s.drop_last());
        assert(t.last() == p);
    } else {
        lemma_sum_update(s.drop_last(), i, p);
        assert(t.drop_last() =~= s.drop_last().update(i, p));
        assert(t.last() == s.last());
    }
}

/// Appending a position adds its `deposited` to the sum.
proof fn lemma_sum_push(s: Seq<UserPosition>, p: UserPosition)
    ensures
        sum_deposited(s.push(p)) == sum_deposited(s) + p.deposited,
{
    assert(s.push(p).drop_last() =~= s);
    assert(s.push(p).last() == p);
}

/// Under unique owners, any index holding `user`'s position is the index
/// `owner_index` denotes.
proof fn lemma_owner_index_unique(s: Seq<UserPosition>, user: AccountId, i: int)
    requires
        owners_unique_in(s),
        0 <= i < s.len(),
        s[i].owner == user,
    ensures
        has_owner(s, user),
        owner_index(s, user) == i,
{
    assert(has_owner(s, user));
    let j = owner_index(s, user);
    assert(0 <= j < s.len() && s[j].owner == user);
    if j < i {
        assert(s[j].owner != s[i].owner);
    } else if i < j {
        assert(s[i].owner != s[j].owner);
    }
}

/// Replacing a position with one of the same owner keeps every other user's
/// position (and owner uniqueness) intact.
proof fn lemma_lookup_update_other(s: Seq<UserPosition>, i: int, p: UserPosition, u: AccountId)
    requires
        owners_unique_in(s),
        0 <= i < s.len(),
        p.owner == s[i].owner,
        u != p.owner,
    ensures
        owners_unique_in(s.update(i, p)),
        has_owner(s.update(i, p), u) == has_owner(s, u),
        has_owner(s, u) ==> position_for(s.update(i, p), u) == position_for(s, u),
{
    let t = s.update(i, p);
    assert(forall|k: int| 0 <= k < s.len() ==> t[k].owner == s[k].owner);
    if has_owner(s, u) {
        let j = owner_index(s, u);
        assert(0 <= j < s.len() && s[j].owner == u);
        lemma_owner_index_unique(s, u, j);
        assert(t[j].owner == u);
        lemma_owner_index_unique(t, u, j);
        assert(j != i);
        assert(t[j] == s[j]);
    }
    if has_owner(t, u) {
        let j = owner_index(t, u);
        assert(0 <= j < t.len() && t[j].owner == u);
        assert(s[j].owner == u);
        assert(has_owner(s, u));
    }
}

/// Appending a position for a new owner keeps every other user's position
/// (and owner uniqueness) intact.
proof fn lemma_lookup_push_other(s: Seq<UserPosition>, p: UserPosition, u: AccountId)
    requires
        owners_unique_in(s),
        !has_owner(s, p.owner),
        u != p.owner,
    ensures
        owners_unique_in(s.push(p)),
        has_owner(s.push(p), u) == has_owner(s, u),
        has_owner(s, u) ==> position_for(s.push(p), u) == position_for(s, u),
{
    let t = s.push(p);
    assert(forall|k: int| 0 <= k < s.len() ==> t[k] == s[k]);
    assert(t[s.len() as int] == p);
    assert(forall|k: int| 0 <= k < s.len() ==> s[k].owner != p.owner);
    if has_owner(s, u) {
        let j = owner_index(s, u);
        assert(0 <= j < s.len() && s[j].owner == u);
        assert(t[j].owner == u);
        lemma_owner_index_unique(t, u, j);
        lemma_owner_index_unique(s, u, j);
    }
    if has_owner(t, u) {
        let j = owner_index(t, u);
        assert(0 <= j < t.len() && t[j].owner == u);
        assert(j != s.len());
        assert(s[j].owner == u);
        assert(has_owner(s, u));
    }
}

/// The vault aggregate together with every user's position: the model of the
/// host's record store against which the cross-record invariants are proved.
pub struct Ledger {
    pub vault: Vault,
    pub positions: Vec<UserPosition>,
}

impl Ledger {
    /// The aggregate invariant: the custodial total is exactly the sum of
    /// all deposited balances.
    pub open spec fn custody_consistent(self) -> bool {
        self.vault.total_deposits == sum_deposited(self.positions@)
    }

    /// Each user owns at most one position, and no position is unbound.
    pub open spec fn owners_distinct(self) -> bool {
        &&& owners_unique_in(self.positions@)
        &&& forall|i: int| 0 <= i < self.positions@.len() ==> !self.positions@[i].owner.is_nil()
    }

    /// The ledger invariant, established by `new` and preserved by every
    /// operation.
    pub open spec fn wf(self) -> bool {
        &&& self.custody_consistent()
        &&& self.owners_distinct()
    }

    /// Every position satisfies `locked <= deposited`. Preserved by every
    /// operation except a withdrawal that dips into the locked balance.
    pub open spec fn positions_well_formed(self) -> bool {
        forall|i: int| 0 <= i < self.positions@.len() ==> self.positions@[i].wf()
    }

    /// Whether `user` has a position record.
    pub open spec fn has_position(self, user: AccountId) -> bool {
        has_owner(self.positions@, user)
    }

    /// `user`'s deposited balance; zero if no record exists, matching the
    /// lazy-creation semantics.
    pub open spec fn deposited_of(self, user: AccountId) -> int {
        if has_owner(self.positions@, user) {
            position_for(self.positions@, user).deposited as int
        } else {
            0
        }
    }

    /// `user`'s locked balance; zero if no record exists.
    pub open spec fn locked_of(self, user: AccountId) -> int {
        if has_owner(self.positions@, user) {
            position_for(self.positions@, user).locked as int
        } else {
            0
        }
    }

    /// Create the ledger with an empty custodial pool and no positions.
    pub fn new(authority: AccountId, usdc_mint: AccountId, bump: u8) -> (l: Ledger)
        ensures
            l.wf(),
            l.positions_well_formed(),
            l.vault == (Vault { authority, usdc_mint, total_deposits: 0u64, bump }),
            l.positions@.len() == 0,
    {
        let l = Ledger { vault: ops::initialize(authority, usdc_mint, bump), positions: Vec::new() };
        proof {
            assert(sum_deposited(l.positions@) == 0);
        }
        l
    }

    /// The index of `user`'s position record, if one exists.
    fn find_position(&self, user: AccountId) -> (r: Option<usize>)
        ensures
            match r {
                Some(i) => i < self.positions.len() && self.positions@[i as int].owner == user,
                None => !has_owner(self.positions@, user),
            },
    {
        let n = self.positions.len();
        let mut i: usize = 0;
        while i < n
            invariant
                i <= n,
                n == self.positions.len(),
                forall|j: int| 0 <= j < i ==> self.positions@[j].owner != user,
            decreases n - i,
        {
            if self.positions[i].owner == user {
                return Some(i);
            }
            i = i + 1;
        }
        None
    }

    /// Deposit `amount` for `user`, creating the position record lazily on
    /// the user's first deposit. The nil identity is refused: it is the
    /// sentinel of an unbound record, not a real account.
    pub fn deposit(&mut self, user: AccountId, user_bump: u8, amount: u64, now: i64) -> (r:
        Result<DepositEvent, VaultError>)
        requires
            old(self).wf(),
        ensures
            final(self).wf(),
            old(self).positions_well_formed() ==> final(self).positions_well_formed(),
            final(self).vault.authority == old(self).vault.authority,
            final(self).vault.usdc_mint == old(self).vault.usdc_mint,
            final(self).vault.bump == old(self).vault.bump,
            r is Ok <==> amount > 0 && !user.is_nil() && old(self).vault.total_deposits + amount
                <= u64::MAX,
            r is Ok ==> {
                &&& final(self).vault.total_deposits == old(self).vault.total_deposits + amount
                &&& final(self).has_position(user)
                &&& final(self).deposited_of(user) == old(self).deposited_of(user) + amount
                &&& final(self).locked_of(user) == old(self).locked_of(user)
                &&& position_for(final(self).positions@, user).last_update == now
                &&& r->Ok_0 == (DepositEvent {
                    user,
                    amount,
                    total_deposited: (old(self).deposited_of(user) + amount) as u64,
                    timestamp: now,
                })
            },
            forall|u: AccountId| u != user ==> {
                &&& final(self).deposited_of(u) == old(self).deposited_of(u)
                &&& final(self).locked_of(u) == old(self).locked_of(u)
                &&& final(self).has_position(u) == old(self).has_position(u)
            },
            r is Err ==> *final(self) == *old(self),
            r is Err ==> r->Err_0 == (if amount == 0 {
                VaultError::InvalidAmount
            } else if user.is_nil() {
                VaultError::Unauthorized
            } else {
                VaultError::ArithmeticOverflow
            }),
    {
        if amount == 0 {
            return Err(VaultError::InvalidAmount);
        }
        if user.id == 0 {
            return Err(VaultError::Unauthorized);
        }
        let ghost s0 = self.positions@;
        match self.find_position(user) {
            Some(i) => {
                proof {
                    lemma_owner_index_unique(s0, user, i as int);
                    lemma_sum_bound(s0, i as int);
                }
                let mut v = self.vault;
                let mut p = self.positions[i];
                let r = ops::deposit(&mut v, &mut p, user, user_bump, amount, now);
                match r {
                    Ok(ev) => {
                        self.vault = v;
                        self.positions.set(i, p);
                        proof {
                            lemma_sum_update(s0, i as int, p);
                            assert(forall|k: int|
                                0 <= k < s0.len() ==> self.positions@[k].owner == s0[k].owner);
                            lemma_owner_index_unique(self.positions@, user, i as int);
                            assert forall|u: AccountId| u != user implies {
                                &&& self.deposited_of(u) == old(self).deposited_of(u)
                                &&& self.locked_of(u) == old(self).locked_of(u)
                                &&& self.has_position(u) == old(self).has_position(u)
                            } by {
                                lemma_lookup_update_other(s0, i as int, p, u);
                            }
                        }
                        Ok(ev)
                    },
                    Err(e) => Err(e),
                }
            },
            None => {
                let mut v = self.vault;
                let mut p = UserPosition {
                    owner: AccountId { id: 0 },
                    deposited: 0,
                    locked: 0,
                    last_update: 0,
                    bump: 0,
                };
                let r = ops::deposit(&mut v, &mut p, user, user_bump, amount, now);
                match r {
                    Ok(ev) => {
                        self.vault = v;
                        self.positions.push(p);
                        proof {
                            lemma_sum_push(s0, p);
                            assert(forall|k: int| 0 <= k < s0.len() ==> self.positions@[k] == s0[k]);
                            assert(forall|k: int| 0 <= k < s0.len() ==> s0[k].owner != user);
                            lemma_owner_index_unique(self.positions@, user, s0.len() as int);
                            assert forall|u: AccountId| u != user implies {
                                &&& self.deposited_of(u) == old(self).deposited_of(u)
                                &&& self.locked_of(u) == old(self).locked_of(u)
                                &&& self.has_position(u) == old(self).has_position(u)
                            } by {
                                lemma_lookup_push_other(s0, p, u);
                            }
                        }
                        Ok(ev)
                    },
                    Err(e) => Err(e),
                }
            },
        }
    }

    /// Withdraw `amount` from `caller`'s position. The balance check is
    /// against the full deposited balance, so a withdrawal may dip into
    /// currently locked funds; `positions_well_formed` is only preserved when
    /// it does not. A caller without a position is treated as holding zero.
    pub fn withdraw(&mut self, caller: AccountId, amount: u64, now: i64) -> (r:
        Result<WithdrawEvent, VaultError>)
        requires
            old(self).wf(),
        ensures
            final(self).wf(),
            old(self).positions_well_formed() && amount + old(self).locked_of(caller) <= old(
                self,
            ).deposited_of(caller) ==> final(self).positions_well_formed(),
            final(self).vault.authority == old(self).vault.authority,
            final(self).vault.usdc_mint == old(self).vault.usdc_mint,
            final(self).vault.bump == old(self).vault.bump,
            r is Ok <==> amount > 0 && old(self).deposited_of(caller) >= amount,
            r is Ok ==> {
                &&& final(self).vault.total_deposits == old(self).vault.total_deposits - amount
                &&& final(self).deposited_of(caller) == old(self).deposited_of(caller) - amount
                &&& final(self).locked_of(caller) == old(self).locked_of(caller)
                &&& position_for(final(self).positions@, caller).last_update == now
                &&& r->Ok_0 == (WithdrawEvent {
                    user: caller,
                    amount,
                    remaining: (old(self).deposited_of(caller) - amount) as u64,
                    timestamp: now,
                })
            },
            forall|u: AccountId| u != caller ==> {
                &&& final(self).deposited_of(u) == old(self).deposited_of(u)
                &&& final(self).locked_of(u) == old(self).locked_of(u)
                &&& final(self).has_position(u) == old(self).has_position(u)
            },
            r is Err ==> *final(self) == *old(self),
            r is Err ==> r->Err_0 == (if amount == 0 {
                VaultError::InvalidAmount
            } else {
                VaultError::InsufficientBalance
            }),
    {
        let ghost s0 = self.positions@;
        match self.find_position(caller) {
            Some(i) => {
                proof {
                    lemma_owner_index_unique(s0, caller, i as int);
                    lemma_sum_bound(s0, i as int);
                }
                let mut v = self.vault;
                let mut p = self.positions[i];
                let r = ops::withdraw(&mut v, &mut p, caller, amount, now);
                match r {
                    Ok(ev) => {
                        self.vault = v;
                        self.positions.set(i, p);
                        proof {
                            lemma_sum_update(s0, i as int, p);
                            assert(forall|k: int|
                                0 <= k < s0.len() ==> self.positions@[k].owner == s0[k].owner);
                            lemma_owner_index_unique(self.positions@, caller, i as int);
                            assert forall|u: AccountId| u != caller implies {
                                &&& self.deposited_of(u) == old(self).deposited_of(u)
                                &&& self.locked_of(u) == old(self).locked_of(u)
                                &&& self.has_position(u) == old(self).has_position(u)
                            } by {
                                lemma_lookup_update_other(s0, i as int, p, u);
                            }
                        }
                        Ok(ev)
                    },
                    Err(e) => Err(e),
                }
            },
            None => {
                if amount == 0 {
                    Err(VaultError::InvalidAmount)
                } else {
                    Err(VaultError::InsufficientBalance)
                }
            },
        }
    }

    /// Lock `amount` of `user`'s free balance against the wager `bet_id`.
    /// Only the vault authority may lock; custody does not move, so neither
    /// the aggregate nor any deposited balance changes.
    pub fn lock_for_bet(
        &mut self,
        caller: AccountId,
        user: AccountId,
        amount: u64,
        bet_id: String,
        now: i64,
    ) -> (r: Result<BetLockedEvent, VaultError>)
        requires
            old(self).wf(),
        ensures
            final(self).wf(),
            old(self).positions_well_formed() ==> final(self).positions_well_formed(),
            final(self).vault == old(self).vault,
            r is Ok <==> caller == old(self).vault.authority && amount > 0 && old(self).locked_of(
                user,
            ) + amount <= old(self).deposited_of(user),
            r is Ok ==> {
                &&& final(self).deposited_of(user) == old(self).deposited_of(user)
                &&& final(self).locked_of(user) == old(self).locked_of(user) + amount
                &&& position_for(final(self).positions@, user).last_update == now
                &&& r->Ok_0.user == user
                &&& r->Ok_0.amount == amount
                &&& r->Ok_0.bet_id@ == bet_id@
                &&& r->Ok_0.timestamp == now
            },
            forall|u: AccountId| u != user ==> {
                &&& final(self).deposited_of(u) == old(self).deposited_of(u)
                &&& final(self).locked_of(u) == old(self).locked_of(u)
                &&& final(self).has_position(u) == old(self).has_position(u)
            },
            r is Err ==> *final(self) == *old(self),
            r is Err ==> r->Err_0 == (if caller != old(self).vault.authority {
                VaultError::Unauthorized
            } else if amount == 0 {
                VaultError::InvalidAmount
            } else {
                VaultError::InsufficientBalance
            }),
    {
        let ghost s0 = self.positions@;
        match self.find_position(user) {
            Some(i) => {
                proof {
                    lemma_owner_index_unique(s0, user, i as int);
                }
                let mut p = self.positions[i];
                let r = ops::lock_for_bet(&self.vault, &mut p, caller, amount, bet_id, now);
                match r {
                    Ok(ev) => {
                        self.positions.set(i, p);
                        proof {
                            lemma_sum_update(s0, i as int, p);
                            assert(forall|k: int|
                                0 <= k < s0.len() ==> self.positions@[k].owner == s0[k].owner);
                            lemma_owner_index_unique(self.positions@, user, i as int);
                            assert forall|u: AccountId| u != user implies {
                                &&& self.deposited_of(u) == old(self).deposited_of(u)
                                &&& self.locked_of(u) == old(self).locked_of(u)
                                &&& self.has_position(u) == old(self).has_position(u)
                            } by {
                                lemma_lookup_update_other(s0, i as int, p, u);
                            }
                        }
                        Ok(ev)
                    },
                    Err(e) => Err(e),
                }
            },
            None => {
                if caller != self.vault.authority {
                    Err(VaultError::Unauthorized)
                } else if amount == 0 {
                    Err(VaultError::InvalidAmount)
                } else {
                    Err(VaultError::InsufficientBalance)
                }
            },
        }
    }

    /// Settle the wager `bet_id` on `user`'s position: release `stake` from
    /// the locked balance and credit the clamped winnings (win) or debit the
    /// stake (loss) on both the position and the aggregate. Only the vault
    /// authority may settle; a user without a position has no locked stake,
    /// so settling them fails with `InvalidAmount`.
    ///
    /// While every position satisfies `locked <= deposited`, a loss
    /// settlement of any `stake` within the locked balance is guaranteed to
    /// succeed: the stake fits in the deposited balance, and hence in the
    /// aggregate. The penultimate `ensures` clause states this.
    pub fn settle_bet(
        &mut self,
        caller: AccountId,
        user: AccountId,
        bet_id: String,
        stake: u64,
        won: bool,
        payout: u64,
        now: i64,
    ) -> (r: Result<BetSettledEvent, VaultError>)
        requires
            old(self).wf(),
        ensures
            final(self).wf(),
            old(self).positions_well_formed() ==> final(self).positions_well_formed(),
            final(self).vault.authority == old(self).vault.authority,
            final(self).vault.usdc_mint == old(self).vault.usdc_mint,
            final(self).vault.bump == old(self).vault.bump,
            r is Ok <==> {
                &&& caller == old(self).vault.authority
                &&& old(self).has_position(user)
                &&& old(self).locked_of(user) >= stake
                &&& (won ==> old(self).vault.total_deposits + spec_winnings(stake, payout)
                    <= u64::MAX)
                &&& (!won ==> old(self).deposited_of(user) >= stake)
            },
            r is Ok ==> {
                &&& final(self).locked_of(user) == old(self).locked_of(user) - stake
                &&& (won ==> {
                    &&& final(self).deposited_of(user) == old(self).deposited_of(user)
                        + spec_winnings(stake, payout)
                    &&& final(self).vault.total_deposits == old(self).vault.total_deposits
                        + spec_winnings(stake, payout)
                })
                &&& (!won ==> {
                    &&& final(self).deposited_of(user) == old(self).deposited_of(user) - stake
                    &&& final(self).vault.total_deposits == old(self).vault.total_deposits - stake
                })
                &&& position_for(final(self).positions@, user).last_update == now
                &&& r->Ok_0.user == user
                &&& r->Ok_0.bet_id@ == bet_id@
                &&& r->Ok_0.stake == stake
                &&& r->Ok_0.won == won
                &&& r->Ok_0.payout == payout
                &&& r->Ok_0.timestamp == now
            },
            forall|u: AccountId| u != user ==> {
                &&& final(self).deposited_of(u) == old(self).deposited_of(u)
                &&& final(self).locked_of(u) == old(self).locked_of(u)
                &&& final(self).has_position(u) == old(self).has_position(u)
            },
            old(self).positions_well_formed() && caller == old(self).vault.authority && old(
                self,
            ).has_position(user) && old(self).locked_of(user) >= stake && !won ==> r is Ok,
            r is Err ==> *final(self) == *old(self),
            r is Err ==> r->Err_0 == (if caller != old(self).vault.authority {
                VaultError::Unauthorized
            } else if !old(self).has_position(user) || old(self).locked_of(user) < stake {
                VaultError::InvalidAmount
            } else if won {
                VaultError::ArithmeticOverflow
            } else {
                VaultError::ArithmeticUnderflow
            }),
    {
        let ghost s0 = self.positions@;
        match self.find_position(user) {
            Some(i) => {
                proof {
                    lemma_owner_index_unique(s0, user, i as int);
                    lemma_sum_bound(s0, i as int);
                }
                let mut v = self.vault;
                let mut p = self.positions[i];
                let r = ops::settle_bet(&mut v, &mut p, caller, bet_id, stake, won, payout, now);
                match r {
                    Ok(ev) => {
                        self.vault = v;
                        self.positions.set(i, p);
                        proof {
                            lemma_sum_update(s0, i as int, p);
                            assert(forall|k: int|
                                0 <= k < s0.len() ==> self.positions@[k].owner == s0[k].owner);
                            lemma_owner_index_unique(self.positions@, user, i as int);
                            assert forall|u: AccountId| u != user implies {
                                &&& self.deposited_of(u) == old(self).deposited_of(u)
                                &&& self.locked_of(u) == old(self).locked_of(u)
                                &&& self.has_position(u) == old(self).has_position(u)
                            } by {
                                lemma_lookup_update_other(s0, i as int, p, u);
                            }
                        }
                        Ok(ev)
                    },
                    Err(e) => Err(e),
                }
            },
            None => {
                if caller != self.vault.authority {
                    Err(VaultError::Unauthorized)
                } else {
                    Err(VaultError::InvalidAmount)
                }
            },
        }
    }

    /// The total custodial balance of the pool.
    pub fn total_custodied(&self) -> (r: u64)
        ensures
            r == self.vault.total_deposits,
    {
        self.vault.total_deposits
    }

    /// Whether `user` has a position record.
    pub fn has_user(&self, user: AccountId) -> (r: bool)
        ensures
            r == self.has_position(user),
    {
        self.find_position(user).is_some()
    }

    /// `user`'s deposited balance; zero if no record exists.
    pub fn deposited_balance(&self, user: AccountId) -> (r: u64)
        requires
            self.wf(),
        ensures
            r == self.deposited_of(user),
    {
        match self.find_position(user) {
            Some(i) => {
                proof {
                    lemma_owner_index_unique(self.positions@, user, i as int);
                }
                self.positions[i].deposited
            },
            None => 0,
        }
    }

    /// `user`'s locked balance; zero if no record exists.
    pub fn locked_balance(&self, user: AccountId) -> (r: u64)
        requires
            self.wf(),
        ensures
            r == self.locked_of(user),
    {
        match self.find_position(user) {
            Some(i) => {
                proof {
                    lemma_owner_index_unique(self.positions@, user, i as int);
                }
                self.positions[i].locked
            },
            None => 0,
        }
    }
}

} // verus!
