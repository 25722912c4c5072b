//! An exchange whose fees anyone can redirect or raise, and whose swap
//! keeps back a fee that it does not disclose.

use crate::collections::address_map::{Address, AddressMap};
use crate::vulnerabilities::refused;
use std::collections::HashMap;
use vstd::prelude::*;

verus! {

broadcast use vstd::std_specs::hash::group_hash_axioms;

/// The highest fee that can be set, in hundredths of a percent.
pub const MAX_FEE: u64 = 5000;

/// The fee that the swap keeps back without saying so, in hundredths of a
/// percent of what the user would get.
pub const HIDDEN_FEE: u64 = 50;

#[derive(Debug, Clone)]
pub struct LiquidityPool {
    pub token_a_reserves: u64,
    pub token_b_reserves: u64,
    /// In hundredths of a percent.
    pub fee_percentage: u64,
    pub fee_recipient: Address,
    pub total_supply: u64,
}

#[derive(Debug, Clone)]
pub struct UserAccount {
    pub owner: Address,
    pub token_a_balance: u64,
    pub token_b_balance: u64,
    pub lp_tokens: u64,
}

pub struct DexProtocol {
    pub admin: Address,
    pub pools: HashMap<u64, LiquidityPool>,
    pub users: AddressMap<UserAccount>,
}

/// The documented fee on `amount` of token A, rounded down.
pub open spec fn fee_of(pool: LiquidityPool, amount: u64) -> int {
    amount * pool.fee_percentage / 10000
}

/// The reserves of token A that the price is worked out with: the old
/// reserves and the amount without the fee.
pub open spec fn priced_reserves_a(pool: LiquidityPool, amount: u64) -> int {
    pool.token_a_reserves + (amount - fee_of(pool, amount))
}

/// The reserves of token B after the swap: the product of the old
/// reserves divided by the priced reserves of token A, rounded down.
pub open spec fn next_reserves_b(pool: LiquidityPool, amount: u64) -> int {
    pool.token_a_reserves * pool.token_b_reserves / priced_reserves_a(pool, amount)
}

/// What leaves the reserves of token B.
pub open spec fn gross_out(pool: LiquidityPool, amount: u64) -> int {
    pool.token_b_reserves - next_reserves_b(pool, amount)
}

/// What the swap keeps back of it without saying so.
pub open spec fn hidden_fee(pool: LiquidityPool, amount: u64) -> int {
    gross_out(pool, amount) * HIDDEN_FEE / 10000
}

/// What the user gets.
pub open spec fn paid_out(pool: LiquidityPool, amount: u64) -> int {
    gross_out(pool, amount) - hidden_fee(pool, amount)
}

/// Whether a swap of `amount` can be worked out in 64 bits.
pub open spec fn swap_fits(pool: LiquidityPool, user: UserAccount, amount: u64) -> bool {
    &&& pool.token_a_reserves * pool.token_b_reserves <= u64::MAX
    &&& amount * pool.fee_percentage <= u64::MAX
    &&& fee_of(pool, amount) <= amount
    &&& 0 < priced_reserves_a(pool, amount)
    &&& priced_reserves_a(pool, amount) + fee_of(pool, amount) <= u64::MAX
    &&& gross_out(pool, amount) * HIDDEN_FEE <= u64::MAX
    &&& user.token_b_balance + paid_out(pool, amount) <= u64::MAX
}

/// With the fee not above the amount, the reserves of token B do not grow
/// in a swap.
pub proof fn lemma_reserves_b_shrink(pool: LiquidityPool, amount: u64)
    requires
        fee_of(pool, amount) <= amount,
        0 < priced_reserves_a(pool, amount),
    ensures
        0 <= next_reserves_b(pool, amount) <= pool.token_b_reserves,
{
    let a = pool.token_a_reserves as int;
    let b = pool.token_b_reserves as int;
    let d = priced_reserves_a(pool, amount);
    assert(a * b <= d * b) by (nonlinear_arith)
        requires
            0 <= a <= d,
            0 <= b,
    ;
    assert(0 <= a * b) by (nonlinear_arith)
        requires
            0 <= a,
            0 <= b,
    ;
    vstd::arithmetic::div_mod::lemma_div_is_ordered(a * b, d * b, d);
    vstd::arithmetic::div_mod::lemma_div_multiples_vanish(b, d);
    assert(d * b == b * d) by (nonlinear_arith);
    vstd::arithmetic::div_mod::lemma_div_pos_is_pos(a * b, d);
}

impl DexProtocol {
    /// Whether the user and the pool exist and the user holds `amount` of
    /// token A.
    pub open spec fn can_swap(&self, user_id: Address, pool_id: u64, amount: u64) -> bool {
        &&& self.users@.contains_key(user_id)
        &&& self.pools@.contains_key(pool_id)
        &&& self.users@[user_id].token_a_balance >= amount
    }

    pub fn new(admin: Address) -> (protocol: Self)
        ensures
            protocol.admin == admin,
            protocol.pools@ == Map::<u64, LiquidityPool>::empty(),
            protocol.users@ == Map::<Address, UserAccount>::empty(),
    {
        Self { admin, pools: HashMap::new(), users: AddressMap::new() }
    }

    /// Names a new recipient of a pool's fees. Nobody is asked who is
    /// calling.
    pub fn set_fee_recipient(&mut self, pool_id: u64, new_recipient: Address) -> (res: Result<
        (),
        &'static str,
    >)
        ensures
            final(self).admin == old(self).admin,
            final(self).users == old(self).users,
            !old(self).pools@.contains_key(pool_id)
                ==> refused(res, "Pool not found") && final(self).pools@ == old(self).pools@,
            old(self).pools@.contains_key(pool_id)
                ==> res == Ok::<(), &'static str>(())
                    && final(self).pools@ == old(self).pools@.insert(
                pool_id,
                LiquidityPool { fee_recipient: new_recipient, ..old(self).pools@[pool_id] },
            ),
    {
        let mut pool = match self.pools.remove(&pool_id) {
            Some(pool) => pool,
            None => {
                assert(self.pools@ =~= old(self).pools@);
                return Err("Pool not found");
            },
        };
        pool.fee_recipient = new_recipient;
        self.pools.insert(pool_id, pool);
        assert(self.pools@ =~= old(self).pools@.insert(
            pool_id,
            LiquidityPool { fee_recipient: new_recipient, ..old(self).pools@[pool_id] },
        ));
        Ok(())
    }

    /// Sets a pool's fee, up to one half of the amount. Nobody is asked who
    /// is calling.
    pub fn set_fee_percentage(&mut self, pool_id: u64, new_fee: u64) -> (res: Result<
        (),
        &'static str,
    >)
        ensures
            final(self).admin == old(self).admin,
            final(self).users == old(self).users,
            !old(self).pools@.contains_key(pool_id) ==> refused(res, "Pool not found"),
            old(self).pools@.contains_key(pool_id) && new_fee > MAX_FEE ==> refused(
                res,
                "Fee too high (max 50%)",
            ),
            res is Err ==> final(self).pools@ == old(self).pools@,
            old(self).pools@.contains_key(pool_id) && new_fee <= MAX_FEE ==> res == Ok::<
                (),
                &'static str,
            >(()) && final(self).pools@ == old(self).pools@.insert(
                pool_id,
                LiquidityPool { fee_percentage: new_fee, ..old(self).pools@[pool_id] },
            ),
    {
        if !self.pools.contains_key(&pool_id) {
            return Err("Pool not found");
        }
        if new_fee > MAX_FEE {
            return Err("Fee too high (max 50%)");
        }
        let mut pool = self.pools.remove(&pool_id).unwrap();
        pool.fee_percentage = new_fee;
        self.pools.insert(pool_id, pool);
        assert(self.pools@ =~= old(self).pools@.insert(
            pool_id,
            LiquidityPool { fee_percentage: new_fee, ..old(self).pools@[pool_id] },
        ));
        Ok(())
    }

    /// Swaps `token_a_amount` of the user's token A for token B. The
    /// documented fee stays in the pool. On top of it the swap keeps back
    /// the hidden fee from what the user gets, and leaves it in the pool
    /// too.
    pub fn swap(&mut self, user_id: Address, pool_id: u64, token_a_amount: u64) -> (res: Result<
        u64,
        &'static str,
    >)
        requires
            old(self).can_swap(user_id, pool_id, token_a_amount) ==> swap_fits(
                old(self).pools@[pool_id],
                old(self).users@[user_id],
                token_a_amount,
            ),
        ensures
            final(self).users.order() == old(self).users.order(),
            final(self).admin == old(self).admin,
            !old(self).users@.contains_key(user_id) ==> refused(res, "User not found"),
            old(self).users@.contains_key(user_id) && !old(self).pools@.contains_key(pool_id)
                ==> refused(res, "Pool not found"),
            old(self).users@.contains_key(user_id) && old(self).pools@.contains_key(pool_id)
                && old(self).users@[user_id].token_a_balance < token_a_amount ==> refused(
                res,
                "Insufficient token A balance",
            ),
            res is Err
                ==> final(self).pools@ == old(self).pools@
                    && final(self).users@ == old(self).users@,
            old(self).can_swap(user_id, pool_id, token_a_amount) ==> ({
                let pool = old(self).pools@[pool_id];
                let user = old(self).users@[user_id];
                &&& res == Ok::<u64, &'static str>(paid_out(pool, token_a_amount) as u64)
                &&& final(self).users@ == old(self).users@.insert(
                    user_id,
                    UserAccount {
                        token_a_balance: (user.token_a_balance - token_a_amount) as u64,
                        token_b_balance: (user.token_b_balance + paid_out(
                            pool,
                            token_a_amount,
                        )) as u64,
                        ..user
                    },
                )
                &&& final(self).pools@ == old(self).pools@.insert(
                    pool_id,
                    LiquidityPool {
                        token_a_reserves: (priced_reserves_a(pool, token_a_amount) + fee_of(
                            pool,
                            token_a_amount,
                        )) as u64,
                        token_b_reserves: next_reserves_b(pool, token_a_amount) as u64,
                        ..pool
                    },
                )
            }),
    {
        let user = match self.users.get(&user_id) {
            Some(user) => user,
            None => return Err("User not found"),
        };
        let pool = match self.pools.get(&pool_id) {
            Some(pool) => pool,
            None => return Err("Pool not found"),
        };
        if user.token_a_balance < token_a_amount {
            return Err("Insufficient token A balance");
        }
        proof {
            lemma_reserves_b_shrink(*pool, token_a_amount);
        }
        let k = pool.token_a_reserves * pool.token_b_reserves;
        let fee_amount = token_a_amount * pool.fee_percentage / 10000;
        let amount_after_fee = token_a_amount - fee_amount;
        let new_token_a_reserves = pool.token_a_reserves + amount_after_fee;
        let new_token_b_reserves = k / new_token_a_reserves;
        let token_b_out = pool.token_b_reserves - new_token_b_reserves;
        let hidden_fee = token_b_out * HIDDEN_FEE / 10000;
        let actual_token_b_out = token_b_out - hidden_fee;
        let user = self.users.get_mut(&user_id).unwrap();
        user.token_a_balance -= token_a_amount;
        user.token_b_balance += actual_token_b_out;
        let mut pool = self.pools.remove(&pool_id).unwrap();
        pool.token_a_reserves = new_token_a_reserves + fee_amount;
        pool.token_b_reserves = new_token_b_reserves;
        self.pools.insert(pool_id, pool);
        assert(self.pools@ =~= old(self).pools@.insert(
            pool_id,
            LiquidityPool {
                token_a_reserves: (new_token_a_reserves + fee_amount) as u64,
                token_b_reserves: new_token_b_reserves,
                ..old(self).pools@[pool_id]
            },
        ));
        Ok(actual_token_b_out)
    }
}

} // verus!
