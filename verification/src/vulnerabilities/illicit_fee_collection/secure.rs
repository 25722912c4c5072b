//! An exchange whose fees only the fee admin can change, within bounds and
//! after a waiting time, and whose swap charges what it says and no more.

use crate::collections::address_map::{order_with, same_address, Address, AddressMap};
use crate::vulnerabilities::refused;
use std::collections::HashMap;
use vstd::prelude::*;

verus! {

broadcast use vstd::std_specs::hash::group_hash_axioms;

/// The highest fee that can be proposed, in hundredths of a percent.
pub const MAX_FEE: u64 = 100;

/// Seconds between the proposal of a fee and the time it can be applied.
pub const FEE_TIMELOCK: u64 = 86400;

#[derive(Debug, Clone)]
pub struct LiquidityPool {
    pub token_a_reserves: u64,
    pub token_b_reserves: u64,
    /// In hundredths of a percent.
    pub fee_percentage: u64,
    pub fee_recipient: Address,
    pub total_supply: u64,
    /// The protocol's own fee, in hundredths of a percent.
    pub protocol_fee_percentage: u64,
}

#[derive(Debug, Clone)]
pub struct UserAccount {
    pub owner: Address,
    pub token_a_balance: u64,
    pub token_b_balance: u64,
    pub lp_tokens: u64,
}

#[derive(Debug, Clone, Copy)]
pub struct FeeChange {
    pub pool_id: u64,
    pub new_fee: u64,
    pub timestamp: u64,
    pub effective_time: u64,
}

pub struct DexProtocol {
    pub admin: Address,
    pub fee_admin: Address,
    pub pools: HashMap<u64, LiquidityPool>,
    pub users: AddressMap<UserAccount>,
    pub pending_fee_changes: Vec<FeeChange>,
    pub current_time: u64,
}

/// The pools after the first `upto` changes were gone through in order: a
/// change whose waiting time is over by `now` sets the fee of its pool,
/// where there is such a pool.
pub open spec fn pools_after_changes(
    pools: Map<u64, LiquidityPool>,
    changes: Seq<FeeChange>,
    now: u64,
    upto: int,
) -> Map<u64, LiquidityPool>
    decreases upto,
{
    if upto <= 0 {
        pools
    } else {
        let before = pools_after_changes(pools, changes, now, upto - 1);
        let change = changes[upto - 1];
        if change.effective_time <= now && before.contains_key(change.pool_id) {
            before.insert(
                change.pool_id,
                LiquidityPool { fee_percentage: change.new_fee, ..before[change.pool_id] },
            )
        } else {
            before
        }
    }
}

/// Number of changes among the first `upto` that were applied.
pub open spec fn applied_changes(
    pools: Map<u64, LiquidityPool>,
    changes: Seq<FeeChange>,
    now: u64,
    upto: int,
) -> nat
    decreases upto,
{
    if upto <= 0 {
        0
    } else {
        let change = changes[upto - 1];
        if change.effective_time <= now && pools.contains_key(change.pool_id) {
            applied_changes(pools, changes, now, upto - 1) + 1
        } else {
            applied_changes(pools, changes, now, upto - 1)
        }
    }
}

/// The changes among the first `upto` whose waiting time is not over by
/// `now`, in their order.
pub open spec fn waiting_changes(changes: Seq<FeeChange>, now: u64, upto: int) -> Seq<FeeChange>
    decreases upto,
{
    if upto <= 0 {
        Seq::empty()
    } else if changes[upto - 1].effective_time > now {
        waiting_changes(changes, now, upto - 1).push(changes[upto - 1])
    } else {
        waiting_changes(changes, now, upto - 1)
    }
}

/// Going through changes sets fees only: no pool comes or goes.
pub proof fn lemma_changes_keep_pools(
    pools: Map<u64, LiquidityPool>,
    changes: Seq<FeeChange>,
    now: u64,
    upto: int,
)
    ensures
        pools_after_changes(pools, changes, now, upto).dom() == pools.dom(),
    decreases upto,
{
    if upto > 0 {
        lemma_changes_keep_pools(pools, changes, now, upto - 1);
        let before = pools_after_changes(pools, changes, now, upto - 1);
        assert(pools_after_changes(pools, changes, now, upto).dom() =~= before.dom());
    }
}

/// The fee for the liquidity providers on `amount` of token A.
pub open spec fn lp_fee_of(pool: LiquidityPool, amount: u64) -> int {
    amount * pool.fee_percentage / 10000
}

/// The protocol's fee on `amount` of token A.
pub open spec fn protocol_fee_of(pool: LiquidityPool, amount: u64) -> int {
    amount * pool.protocol_fee_percentage / 10000
}

/// The reserves of token A that the price is worked out with: the old
/// reserves and the amount without the two fees.
pub open spec fn priced_reserves_a(pool: LiquidityPool, amount: u64) -> int {
    pool.token_a_reserves + (amount - lp_fee_of(pool, amount) - protocol_fee_of(pool, amount))
}

/// The reserves of token B after the swap: the product of the old
/// reserves divided by the priced reserves of token A, rounded down.
pub open spec fn next_reserves_b(pool: LiquidityPool, amount: u64) -> int {
    pool.token_a_reserves * pool.token_b_reserves / priced_reserves_a(pool, amount)
}

/// What the user gets: all that leaves the reserves of token B.
pub open spec fn paid_out(pool: LiquidityPool, amount: u64) -> int {
    pool.token_b_reserves - next_reserves_b(pool, amount)
}

/// `users` with an empty account for `who`, owned by `who`, where there
/// was none.
pub open spec fn with_account(users: Map<Address, UserAccount>, who: Address) -> Map<
    Address,
    UserAccount,
> {
    if users.contains_key(who) {
        users
    } else {
        users.insert(
            who,
            UserAccount { owner: who, token_a_balance: 0, token_b_balance: 0, lp_tokens: 0 },
        )
    }
}

/// The users after `user_id` paid `amount` of token A and got `out` of
/// token B.
pub open spec fn users_after_trade(
    users: Map<Address, UserAccount>,
    user_id: Address,
    amount: u64,
    out: int,
) -> Map<Address, UserAccount> {
    users.insert(
        user_id,
        UserAccount {
            token_a_balance: (users[user_id].token_a_balance - amount) as u64,
            token_b_balance: (users[user_id].token_b_balance + out) as u64,
            ..users[user_id]
        },
    )
}

/// The users after `recipient`, whose account is opened where it was
/// missing, got `fee` of token A. Nothing happens where the fee is zero.
pub open spec fn users_after_fee(users: Map<Address, UserAccount>, recipient: Address, fee: int) -> Map<
    Address,
    UserAccount,
> {
    if fee > 0 {
        let opened = with_account(users, recipient);
        opened.insert(
            recipient,
            UserAccount {
                token_a_balance: (opened[recipient].token_a_balance + fee) as u64,
                ..opened[recipient]
            },
        )
    } else {
        users
    }
}

/// Whether a swap of `amount` can be worked out in 64 bits.
pub open spec fn swap_fits(
    pool: LiquidityPool,
    users: Map<Address, UserAccount>,
    user_id: Address,
    amount: u64,
) -> bool {
    let traded = users_after_trade(users, user_id, amount, paid_out(pool, amount));
    &&& pool.token_a_reserves * pool.token_b_reserves <= u64::MAX
    &&& amount * pool.fee_percentage <= u64::MAX
    &&& amount * pool.protocol_fee_percentage <= u64::MAX
    &&& lp_fee_of(pool, amount) + protocol_fee_of(pool, amount) <= amount
    &&& 0 < priced_reserves_a(pool, amount)
    &&& priced_reserves_a(pool, amount) + lp_fee_of(pool, amount) <= u64::MAX
    &&& users[user_id].token_b_balance + paid_out(pool, amount) <= u64::MAX
    &&& protocol_fee_of(pool, amount) > 0 ==> with_account(
        traded,
        pool.fee_recipient,
    )[pool.fee_recipient].token_a_balance + protocol_fee_of(pool, amount) <= u64::MAX
}

/// With the fees not above the amount, the reserves of token B do not grow
/// in a swap.
pub proof fn lemma_reserves_b_shrink(pool: LiquidityPool, amount: u64)
    requires
        lp_fee_of(pool, amount) + protocol_fee_of(pool, amount) <= amount,
        0 < priced_reserves_a(pool, amount),
    ensures
        0 <= next_reserves_b(pool, amount) <= pool.token_b_reserves,
{
    let a = pool.token_a_reserves as int;
    let b = pool.token_b_reserves as int;
    let d = priced_reserves_a(pool, amount);
    assert(a * b <= d * b) by (nonlinear_arith)
        requires
            0 <= a <= d,
            0 <= b,
    ;
    assert(0 <= a * b) by (nonlinear_arith)
        requires
            0 <= a,
            0 <= b,
    ;
    vstd::arithmetic::div_mod::lemma_div_is_ordered(a * b, d * b, d);
    vstd::arithmetic::div_mod::lemma_div_multiples_vanish(b, d);
    assert(d * b == b * d) by (nonlinear_arith);
    vstd::arithmetic::div_mod::lemma_div_pos_is_pos(a * b, d);
}

impl DexProtocol {
    /// Whether the user and the pool exist and the user holds `amount` of
    /// token A.
    pub open spec fn can_swap(&self, user_id: Address, pool_id: u64, amount: u64) -> bool {
        &&& self.users@.contains_key(user_id)
        &&& self.pools@.contains_key(pool_id)
        &&& self.users@[user_id].token_a_balance >= amount
    }

    /// Whether `caller` may propose the fee `new_fee` for the pool.
    pub open spec fn may_propose(&self, caller: Address, pool_id: u64, new_fee: u64) -> bool {
        &&& caller == self.fee_admin
        &&& new_fee <= MAX_FEE
        &&& self.pools@.contains_key(pool_id)
    }

    pub fn new(admin: Address) -> (protocol: Self)
        ensures
            protocol.admin == admin,
            protocol.fee_admin == admin,
            protocol.pools@ == Map::<u64, LiquidityPool>::empty(),
            protocol.users@ == Map::<Address, UserAccount>::empty(),
            protocol.pending_fee_changes@ == Seq::<FeeChange>::empty(),
            protocol.current_time == 0,
    {
        Self {
            admin,
            fee_admin: admin,
            pools: HashMap::new(),
            users: AddressMap::new(),
            pending_fee_changes: Vec::new(),
            current_time: 0,
        }
    }

    /// Names a new recipient of a pool's fees, where the fee admin calls.
    pub fn set_fee_recipient(&mut self, caller: Address, pool_id: u64, new_recipient: Address) -> (res:
        Result<(), &'static str>)
        ensures
            final(self).admin == old(self).admin,
            final(self).fee_admin == old(self).fee_admin,
            final(self).users == old(self).users,
            final(self).pending_fee_changes == old(self).pending_fee_changes,
            final(self).current_time == old(self).current_time,
            caller != old(self).fee_admin ==> refused(
                res,
                "Only fee admin can change fee recipient",
            ),
            caller == old(self).fee_admin && !old(self).pools@.contains_key(pool_id) ==> refused(
                res,
                "Pool not found",
            ),
            res is Err ==> final(self).pools@ == old(self).pools@,
            caller == old(self).fee_admin && old(self).pools@.contains_key(pool_id) ==> res == Ok::<
                (),
                &'static str,
            >(()) && final(self).pools@ == old(self).pools@.insert(
                pool_id,
                LiquidityPool { fee_recipient: new_recipient, ..old(self).pools@[pool_id] },
            ),
    {
        if !same_address(&caller, &self.fee_admin) {
            return Err("Only fee admin can change fee recipient");
        }
        if !self.pools.contains_key(&pool_id) {
            return Err("Pool not found");
        }
        let mut pool = self.pools.remove(&pool_id).unwrap();
        pool.fee_recipient = new_recipient;
        self.pools.insert(pool_id, pool);
        assert(self.pools@ =~= old(self).pools@.insert(
            pool_id,
            LiquidityPool { fee_recipient: new_recipient, ..old(self).pools@[pool_id] },
        ));
        Ok(())
    }

    /// Writes down a new fee for a pool, to be applied once the waiting
    /// time is over. Only the fee admin may propose, and no more than one
    /// percent. The end of the waiting time has to fit in 64 bits.
    pub fn propose_fee_change(&mut self, caller: Address, pool_id: u64, new_fee: u64) -> (res:
        Result<(), &'static str>)
        requires
            old(self).may_propose(caller, pool_id, new_fee) ==> old(self).current_time
                + FEE_TIMELOCK <= u64::MAX,
        ensures
            final(self).admin == old(self).admin,
            final(self).fee_admin == old(self).fee_admin,
            final(self).users == old(self).users,
            final(self).pools == old(self).pools,
            final(self).current_time == old(self).current_time,
            caller != old(self).fee_admin ==> refused(
                res,
                "Only fee admin can propose fee changes",
            ),
            caller == old(self).fee_admin && new_fee > MAX_FEE ==> refused(
                res,
                "Fee too high (max 1%)",
            ),
            caller == old(self).fee_admin && new_fee <= MAX_FEE && !old(self).pools@.contains_key(
                pool_id,
            ) ==> refused(res, "Pool not found"),
            res is Err ==> final(self).pending_fee_changes@ == old(self).pending_fee_changes@,
            old(self).may_propose(caller, pool_id, new_fee) ==> res == Ok::<(), &'static str>(())
                && final(self).pending_fee_changes@ == old(self).pending_fee_changes@.push(
                FeeChange {
                    pool_id,
                    new_fee,
                    timestamp: old(self).current_time,
                    effective_time: (old(self).current_time + FEE_TIMELOCK) as u64,
                },
            ),
    {
        if !same_address(&caller, &self.fee_admin) {
            return Err("Only fee admin can propose fee changes");
        }
        if new_fee > MAX_FEE {
            return Err("Fee too high (max 1%)");
        }
        if !self.pools.contains_key(&pool_id) {
            return Err("Pool not found");
        }
        let change = FeeChange {
            pool_id,
            new_fee,
            timestamp: self.current_time,
            effective_time: self.current_time + FEE_TIMELOCK,
        };
        self.pending_fee_changes.push(change);
        Ok(())
    }

    /// Applies, in the order of their proposal, the fee changes whose
    /// waiting time is over, and takes them off the list. Returns how many
    /// were applied: a change for a pool that does not exist is taken off
    /// the list without being counted.
    pub fn apply_pending_fee_changes(&mut self) -> (res: Result<usize, &'static str>)
        ensures
            final(self).admin == old(self).admin,
            final(self).fee_admin == old(self).fee_admin,
            final(self).users == old(self).users,
            final(self).current_time == old(self).current_time,
            res == Ok::<usize, &'static str>(
                applied_changes(
                    old(self).pools@,
                    old(self).pending_fee_changes@,
                    old(self).current_time,
                    old(self).pending_fee_changes@.len() as int,
                ) as usize,
            ),
            final(self).pools@ == pools_after_changes(
                old(self).pools@,
                old(self).pending_fee_changes@,
                old(self).current_time,
                old(self).pending_fee_changes@.len() as int,
            ),
            final(self).pending_fee_changes@ == waiting_changes(
                old(self).pending_fee_changes@,
                old(self).current_time,
                old(self).pending_fee_changes@.len() as int,
            ),
    {
        let mut applied_count: usize = 0;
        let mut waiting: Vec<FeeChange> = Vec::new();
        let mut i: usize = 0;
        while i < self.pending_fee_changes.len()
            invariant
                i <= self.pending_fee_changes.len(),
                self.admin == old(self).admin,
                self.fee_admin == old(self).fee_admin,
                self.users == old(self).users,
                self.current_time == old(self).current_time,
                self.pending_fee_changes == old(self).pending_fee_changes,
                applied_count <= i,
                applied_count == applied_changes(
                    old(self).pools@,
                    self.pending_fee_changes@,
                    self.current_time,
                    i as int,
                ),
                self.pools@ == pools_after_changes(
                    old(self).pools@,
                    self.pending_fee_changes@,
                    self.current_time,
                    i as int,
                ),
                waiting@ == waiting_changes(self.pending_fee_changes@, self.current_time, i as int),
            decreases self.pending_fee_changes.len() - i,
        {
            let change = self.pending_fee_changes[i];
            proof {
                lemma_changes_keep_pools(
                    old(self).pools@,
                    self.pending_fee_changes@,
                    self.current_time,
                    i as int,
                );
            }
            if change.effective_time <= self.current_time {
                if self.pools.contains_key(&change.pool_id) {
                    let ghost before = self.pools@;
                    let mut pool = self.pools.remove(&change.pool_id).unwrap();
                    pool.fee_percentage = change.new_fee;
                    self.pools.insert(change.pool_id, pool);
                    assert(self.pools@ =~= before.insert(
                        change.pool_id,
                        LiquidityPool { fee_percentage: change.new_fee, ..before[change.pool_id] },
                    ));
                    applied_count += 1;
                }
            } else {
                waiting.push(change);
            }
            i += 1;
        }
        self.pending_fee_changes = waiting;
        Ok(applied_count)
    }

    /// Swaps `token_a_amount` of the user's token A for token B. The fee
    /// for the liquidity providers stays in the pool, the protocol's fee
    /// goes to the pool's fee recipient, and the user gets all that leaves
    /// the reserves of token B.
    pub fn swap(&mut self, user_id: Address, pool_id: u64, token_a_amount: u64) -> (res: Result<
        u64,
        &'static str,
    >)
        requires
            old(self).can_swap(user_id, pool_id, token_a_amount) ==> swap_fits(
                old(self).pools@[pool_id],
                old(self).users@,
                user_id,
                token_a_amount,
            ),
        ensures
            res is Err ==> final(self).users.order() == old(self).users.order(),
            old(self).can_swap(user_id, pool_id, token_a_amount)
                ==> final(self).users.order()
                    == if protocol_fee_of(old(self).pools@[pool_id], token_a_amount) > 0 {
                order_with(old(self).users.order(), old(self).pools@[pool_id].fee_recipient)
            } else {
                old(self).users.order()
            },
            final(self).admin == old(self).admin,
            final(self).fee_admin == old(self).fee_admin,
            final(self).pending_fee_changes == old(self).pending_fee_changes,
            final(self).current_time == old(self).current_time,
            !old(self).users@.contains_key(user_id) ==> refused(res, "User not found"),
            old(self).users@.contains_key(user_id) && !old(self).pools@.contains_key(pool_id)
                ==> refused(res, "Pool not found"),
            old(self).users@.contains_key(user_id) && old(self).pools@.contains_key(pool_id)
                && old(self).users@[user_id].token_a_balance < token_a_amount ==> refused(
                res,
                "Insufficient token A balance",
            ),
            res is Err
                ==> final(self).pools@ == old(self).pools@
                    && final(self).users@ == old(self).users@,
            old(self).can_swap(user_id, pool_id, token_a_amount) ==> ({
                let pool = old(self).pools@[pool_id];
                let out = paid_out(pool, token_a_amount);
                &&& res == Ok::<u64, &'static str>(out as u64)
                &&& final(self).users@ == users_after_fee(
                    users_after_trade(old(self).users@, user_id, token_a_amount, out),
                    pool.fee_recipient,
                    protocol_fee_of(pool, token_a_amount),
                )
                &&& final(self).pools@ == old(self).pools@.insert(
                    pool_id,
                    LiquidityPool {
                        token_a_reserves: (priced_reserves_a(pool, token_a_amount) + lp_fee_of(
                            pool,
                            token_a_amount,
                        )) as u64,
                        token_b_reserves: next_reserves_b(pool, token_a_amount) as u64,
                        ..pool
                    },
                )
            }),
    {
        let user = match self.users.get(&user_id) {
            Some(user) => user,
            None => return Err("User not found"),
        };
        let pool = match self.pools.get(&pool_id) {
            Some(pool) => pool,
            None => return Err("Pool not found"),
        };
        if user.token_a_balance < token_a_amount {
            return Err("Insufficient token A balance");
        }
        proof {
            lemma_reserves_b_shrink(*pool, token_a_amount);
        }
        let k = pool.token_a_reserves * pool.token_b_reserves;
        let lp_fee_amount = token_a_amount * pool.fee_percentage / 10000;
        let protocol_fee_amount = token_a_amount * pool.protocol_fee_percentage / 10000;
        let total_fee = lp_fee_amount + protocol_fee_amount;
        let amount_after_fee = token_a_amount - total_fee;
        let new_token_a_reserves = pool.token_a_reserves + amount_after_fee;
        let new_token_b_reserves = k / new_token_a_reserves;
        let token_b_out = pool.token_b_reserves - new_token_b_reserves;
        let fee_recipient = pool.fee_recipient;
        let user = self.users.get_mut(&user_id).unwrap();
        user.token_a_balance -= token_a_amount;
        user.token_b_balance += token_b_out;
        let mut pool = self.pools.remove(&pool_id).unwrap();
        pool.token_a_reserves = new_token_a_reserves + lp_fee_amount;
        pool.token_b_reserves = new_token_b_reserves;
        self.pools.insert(pool_id, pool);
        assert(self.pools@ =~= old(self).pools@.insert(
            pool_id,
            LiquidityPool {
                token_a_reserves: (new_token_a_reserves + lp_fee_amount) as u64,
                token_b_reserves: new_token_b_reserves,
                ..old(self).pools@[pool_id]
            },
        ));
        if protocol_fee_amount > 0 {
            if !self.users.contains_key(&fee_recipient) {
                self.users.insert(
                    fee_recipient,
                    UserAccount {
                        owner: fee_recipient,
                        token_a_balance: 0,
                        token_b_balance: 0,
                        lp_tokens: 0,
                    },
                );
            }
            let recipient = self.users.get_mut(&fee_recipient).unwrap();
            recipient.token_a_balance += protocol_fee_amount;
        }
        Ok(token_b_out)
    }

    /// Moves the clock forward. The new time has to fit in 64 bits.
    pub fn advance_time(&mut self, seconds: u64)
        requires
            old(self).current_time + seconds <= u64::MAX,
        ensures
            final(self).current_time == old(self).current_time + seconds,
            final(self).admin == old(self).admin,
            final(self).fee_admin == old(self).fee_admin,
            final(self).pools == old(self).pools,
            final(self).users == old(self).users,
            final(self).pending_fee_changes == old(self).pending_fee_changes,
    {
        self.current_time += seconds;
    }
}

} // verus!
