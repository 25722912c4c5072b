//! An exchange whose swaps are committed to first and revealed later, so
//! that nobody can see a swap coming.

use crate::collections::address_map::{order_with, same_address, zero_address, Address, AddressMap};
use crate::vulnerabilities::refused;
use vstd::prelude::*;

verus! {

/// Number of blocks after which a commitment expires.
pub const COMMITMENT_LIFETIME: u64 = 10;

/// A DEX with front-running protections
pub struct DEX {
    pub pools: AddressMap<LiquidityPool>,
    /// The swaps that were committed to and not yet carried out.
    pub pending_swaps: AddressMap<PendingSwap>,
}

/// Pending swap structure for commit-reveal scheme
pub struct PendingSwap {
    pub user: Address,
    pub token_in: Address,
    pub amount_in: u64,
    pub min_amount_out: u64,
    pub commitment: Address,
    /// The last block at which the commitment can be revealed.
    pub expiry: u64,
}

/// Liquidity pool structure
pub struct LiquidityPool {
    pub token_a: Address,
    pub token_b: Address,
    pub token_a_reserves: u64,
    pub token_b_reserves: u64,
}

/// User account structure
pub struct UserAccount {
    pub owner: Address,
    /// What the user holds of each token.
    pub balances: AddressMap<u64>,
}

/// Whether `token` is one of the two tokens of the pool.
pub open spec fn trades(pool: LiquidityPool, token: Address) -> bool {
    token == pool.token_a || token == pool.token_b
}

/// The reserves of the token that comes in.
pub open spec fn reserves_in(pool: LiquidityPool, token_in: Address) -> u64 {
    if token_in == pool.token_a {
        pool.token_a_reserves
    } else {
        pool.token_b_reserves
    }
}

/// The reserves of the token that goes out.
pub open spec fn reserves_out(pool: LiquidityPool, token_in: Address) -> u64 {
    if token_in == pool.token_a {
        pool.token_b_reserves
    } else {
        pool.token_a_reserves
    }
}

/// The token that goes out.
pub open spec fn token_out(pool: LiquidityPool, token_in: Address) -> Address {
    if token_in == pool.token_a {
        pool.token_b
    } else {
        pool.token_a
    }
}

/// What `amount_in` buys at constant product of the reserves, rounded
/// down.
pub open spec fn quote(pool: LiquidityPool, token_in: Address, amount_in: u64) -> int {
    amount_in * reserves_out(pool, token_in) / (reserves_in(pool, token_in) + amount_in)
}

/// What is held of `token`: nothing where there is no entry for it.
pub open spec fn held(balances: Map<Address, u64>, token: Address) -> u64 {
    if balances.contains_key(token) {
        balances[token]
    } else {
        0
    }
}

/// The balances after `amount_in` of `token_in` was taken.
pub open spec fn balances_after_payment(
    balances: Map<Address, u64>,
    token_in: Address,
    amount_in: u64,
) -> Map<Address, u64> {
    balances.insert(token_in, (held(balances, token_in) - amount_in) as u64)
}

/// The balances after the swap: `amount_in` of `token_in` taken, then
/// `amount_out` of `token_out` given.
pub open spec fn balances_after_swap(
    balances: Map<Address, u64>,
    token_in: Address,
    amount_in: u64,
    token_out: Address,
    amount_out: int,
) -> Map<Address, u64> {
    let paid = balances_after_payment(balances, token_in, amount_in);
    paid.insert(token_out, (held(paid, token_out) + amount_out) as u64)
}

/// The pool after the swap: `amount_in` more of the token that came in,
/// `amount_out` less of the other.
pub open spec fn pool_after_swap(
    pool: LiquidityPool,
    token_in: Address,
    amount_in: u64,
    amount_out: int,
) -> LiquidityPool {
    if token_in == pool.token_a {
        LiquidityPool {
            token_a_reserves: (pool.token_a_reserves + amount_in) as u64,
            token_b_reserves: (pool.token_b_reserves - amount_out) as u64,
            ..pool
        }
    } else {
        LiquidityPool {
            token_b_reserves: (pool.token_b_reserves + amount_in) as u64,
            token_a_reserves: (pool.token_a_reserves - amount_out) as u64,
            ..pool
        }
    }
}

/// Whether the quote can be worked out in 64 bits.
pub open spec fn quote_fits(pool: LiquidityPool, token_in: Address, amount_in: u64) -> bool {
    &&& amount_in * reserves_out(pool, token_in) <= u64::MAX
    &&& 0 < reserves_in(pool, token_in) + amount_in <= u64::MAX
}

/// Whether the user can pay for the swap and hold what it gets.
pub open spec fn user_fits(
    balances: Map<Address, u64>,
    pool: LiquidityPool,
    token_in: Address,
    amount_in: u64,
) -> bool {
    &&& held(balances, token_in) >= amount_in
    &&& held(balances_after_payment(balances, token_in, amount_in), token_out(pool, token_in))
        + quote(pool, token_in, amount_in) <= u64::MAX
}

/// A swap never takes more out of the pool than its reserves.
pub proof fn lemma_quote_within_reserves(pool: LiquidityPool, token_in: Address, amount_in: u64)
    requires
        0 < reserves_in(pool, token_in) + amount_in,
    ensures
        0 <= quote(pool, token_in, amount_in) <= reserves_out(pool, token_in),
{
    let x = amount_in as int;
    let out = reserves_out(pool, token_in) as int;
    let d = reserves_in(pool, token_in) + amount_in;
    assert(x * out <= d * out) by (nonlinear_arith)
        requires
            0 <= x <= d,
            0 <= out,
    ;
    assert(0 <= x * out) by (nonlinear_arith)
        requires
            0 <= x,
            0 <= out,
    ;
    vstd::arithmetic::div_mod::lemma_div_is_ordered(x * out, d * out, d);
    vstd::arithmetic::div_mod::lemma_div_multiples_vanish(out, d);
    assert(d * out == out * d) by (nonlinear_arith);
    vstd::arithmetic::div_mod::lemma_div_pos_is_pos(x * out, d);
}

/// Takes `amount_in` of `token_in` from the user and gives it `amount_out`
/// of `token_out`.
fn settle_user(
    user: &mut UserAccount,
    token_in: Address,
    amount_in: u64,
    token_out: Address,
    amount_out: u64,
)
    requires
        held(old(user).balances@, token_in) >= amount_in,
        held(balances_after_payment(old(user).balances@, token_in, amount_in), token_out)
            + amount_out <= u64::MAX,
    ensures
        final(user).owner == old(user).owner,
        final(user).balances.order() == order_with(
            order_with(old(user).balances.order(), token_in),
            token_out,
        ),
        final(user).balances@ == balances_after_swap(
            old(user).balances@,
            token_in,
            amount_in,
            token_out,
            amount_out as int,
        ),
{
    if !user.balances.contains_key(&token_in) {
        user.balances.insert(token_in, 0);
    }
    let paid = user.balances.get_mut(&token_in).unwrap();
    *paid -= amount_in;
    assert(user.balances@ =~= balances_after_payment(old(user).balances@, token_in, amount_in));
    if !user.balances.contains_key(&token_out) {
        user.balances.insert(token_out, 0);
    }
    let got = user.balances.get_mut(&token_out).unwrap();
    *got += amount_out;
    assert(user.balances@ =~= balances_after_swap(
        old(user).balances@,
        token_in,
        amount_in,
        token_out,
        amount_out as int,
    ));
}

/// The pending swaps after the swap `swap_id` was revealed.
pub open spec fn revealed(
    pending: Map<Address, PendingSwap>,
    swap_id: Address,
    token_in: Address,
    amount_in: u64,
    min_amount_out: u64,
) -> Map<Address, PendingSwap> {
    pending.insert(
        swap_id,
        PendingSwap { token_in, amount_in, min_amount_out, ..pending[swap_id] },
    )
}

impl DEX {
    /// Whether the commitment `swap_id` exists, has not expired at
    /// `current_block`, and was made by `owner`.
    pub open spec fn can_reveal(&self, swap_id: Address, owner: Address, current_block: u64) -> bool {
        &&& self.pending_swaps@.contains_key(swap_id)
        &&& current_block <= self.pending_swaps@[swap_id].expiry
        &&& self.pending_swaps@[swap_id].user == owner
    }

    /// Whether the pool exists, trades `token_in`, and gives at least
    /// `min_amount_out` for `amount_in`.
    pub open spec fn accepts_swap(
        &self,
        pool_id: Address,
        token_in: Address,
        amount_in: u64,
        min_amount_out: u64,
    ) -> bool {
        &&& self.pools@.contains_key(pool_id)
        &&& trades(self.pools@[pool_id], token_in)
        &&& quote(self.pools@[pool_id], token_in, amount_in) >= min_amount_out
    }

    /// What a swap needs in order to be worked out in 64 bits, and for the
    /// user to be able to pay.
    pub open spec fn swap_fits(
        &self,
        pool_id: Address,
        balances: Map<Address, u64>,
        token_in: Address,
        amount_in: u64,
        min_amount_out: u64,
    ) -> bool {
        self.pools@.contains_key(pool_id) && trades(self.pools@[pool_id], token_in) ==> {
            &&& quote_fits(self.pools@[pool_id], token_in, amount_in)
            &&& self.accepts_swap(pool_id, token_in, amount_in, min_amount_out) ==> {
                &&& user_fits(balances, self.pools@[pool_id], token_in, amount_in)
                &&& reserves_in(self.pools@[pool_id], token_in) + amount_in <= u64::MAX
            }
        }
    }

    /// Create a new DEX
    pub fn new() -> (dex: Self)
        ensures
            dex.pools@ == Map::<Address, LiquidityPool>::empty(),
            dex.pending_swaps@ == Map::<Address, PendingSwap>::empty(),
    {
        Self { pools: AddressMap::new(), pending_swaps: AddressMap::new() }
    }

    /// Create a new liquidity pool. Every pool gets the same identifier,
    /// the zero address, so a new pool takes the place of the last one.
    pub fn create_pool(
        &mut self,
        token_a: Address,
        token_b: Address,
        token_a_amount: u64,
        token_b_amount: u64,
    ) -> (pool_id: Address)
        ensures
            final(self).pools.order() == order_with(old(self).pools.order(), zero_address()),
            pool_id == zero_address(),
            final(self).pending_swaps == old(self).pending_swaps,
            final(self).pools@ == old(self).pools@.insert(
                pool_id,
                LiquidityPool {
                    token_a,
                    token_b,
                    token_a_reserves: token_a_amount,
                    token_b_reserves: token_b_amount,
                },
            ),
    {
        let pool_id = [0u8; 32];
        self.pools.insert(
            pool_id,
            LiquidityPool {
                token_a,
                token_b,
                token_a_reserves: token_a_amount,
                token_b_reserves: token_b_amount,
            },
        );
        pool_id
    }

    /// First step: the user commits to a swap without saying what it is.
    /// Every commitment gets the same identifier, the zero address, so a
    /// new commitment takes the place of the last one. The expiry has to
    /// fit in 64 bits.
    pub fn commit_swap(&mut self, user: Address, commitment: Address, current_block: u64) -> (res:
        Result<Address, &'static str>)
        requires
            current_block + COMMITMENT_LIFETIME <= u64::MAX,
        ensures
            final(self).pending_swaps.order()
                == order_with(old(self).pending_swaps.order(), zero_address()),
            res == Ok::<Address, &'static str>(zero_address()),
            final(self).pools == old(self).pools,
            final(self).pending_swaps@ == old(self).pending_swaps@.insert(
                zero_address(),
                PendingSwap {
                    user,
                    token_in: zero_address(),
                    amount_in: 0,
                    min_amount_out: 0,
                    commitment,
                    expiry: (current_block + COMMITMENT_LIFETIME) as u64,
                },
            ),
    {
        let swap_id = [0u8; 32];
        self.pending_swaps.insert(
            swap_id,
            PendingSwap {
                user,
                token_in: [0u8; 32],
                amount_in: 0,
                min_amount_out: 0,
                commitment,
                expiry: current_block + COMMITMENT_LIFETIME,
            },
        );
        Ok(swap_id)
    }

    /// Second step: the user reveals the swap, which is carried out at
    /// once. The revealed data is written into the commitment before the
    /// swap is tried, and stays there where the swap is refused; a swap
    /// that is carried out takes the commitment off the list. The secret
    /// is not held against the commitment.
    pub fn reveal_and_execute_swap(
        &mut self,
        swap_id: Address,
        pool_id: Address,
        user: &mut UserAccount,
        token_in: Address,
        amount_in: u64,
        min_amount_out: u64,
        secret: Address,
        current_block: u64,
    ) -> (res: Result<u64, &'static str>)
        requires
            old(self).can_reveal(swap_id, old(user).owner, current_block) ==> old(self).swap_fits(
                pool_id,
                old(user).balances@,
                token_in,
                amount_in,
                min_amount_out,
            ),
        ensures
            final(self).pools.order() == old(self).pools.order(),
            res is Err ==> final(self).pending_swaps.order() == old(self).pending_swaps.order(),
            res is Ok
                ==> final(self).pending_swaps.order()
                    == old(self).pending_swaps.order().remove_value(swap_id),
            res is Err ==> final(user).balances.order() == old(user).balances.order(),
            res is Ok ==> final(user).balances.order() == order_with(
                order_with(old(user).balances.order(), token_in),
                token_out(old(self).pools@[pool_id], token_in),
            ),
            final(user).owner == old(user).owner,
            !old(self).pending_swaps@.contains_key(swap_id) ==> refused(
                res,
                "Swap commitment not found",
            ),
            old(self).pending_swaps@.contains_key(swap_id)
                && current_block > old(self).pending_swaps@[swap_id].expiry
                    ==> refused(res, "Commitment expired"),
            old(self).pending_swaps@.contains_key(swap_id)
                && current_block <= old(self).pending_swaps@[swap_id].expiry
                    && old(self).pending_swaps@[swap_id].user != old(user).owner
                        ==> refused(res, "Unauthorized user"),
            !old(self).can_reveal(swap_id, old(user).owner, current_block)
                ==> final(self).pending_swaps@ == old(self).pending_swaps@,
            old(self).can_reveal(swap_id, old(user).owner, current_block) ==> {
                &&& !old(self).pools@.contains_key(pool_id) ==> refused(res, "Pool not found")
                &&& old(self).pools@.contains_key(pool_id) && !trades(
                    old(self).pools@[pool_id],
                    token_in,
                ) ==> refused(res, "Invalid token")
                &&& old(self).pools@.contains_key(pool_id) && trades(
                    old(self).pools@[pool_id],
                    token_in,
                ) && quote(old(self).pools@[pool_id], token_in, amount_in) < min_amount_out
                    ==> refused(res, "Slippage too high")
                &&& res is Err ==> final(self).pending_swaps@ == revealed(
                    old(self).pending_swaps@,
                    swap_id,
                    token_in,
                    amount_in,
                    min_amount_out,
                )
                &&& res is Ok <==> old(self).accepts_swap(
                    pool_id,
                    token_in,
                    amount_in,
                    min_amount_out,
                )
            },
            res is Err
                ==> final(self).pools@ == old(self).pools@
                    && final(user).balances@ == old(user).balances@,
            res is Ok ==> ({
                let pool = old(self).pools@[pool_id];
                let amount_out = quote(pool, token_in, amount_in);
                &&& res == Ok::<u64, &'static str>(amount_out as u64)
                &&& final(user).balances@ == balances_after_swap(
                    old(user).balances@,
                    token_in,
                    amount_in,
                    token_out(pool, token_in),
                    amount_out,
                )
                &&& final(self).pools@ == old(self).pools@.insert(
                    pool_id,
                    pool_after_swap(pool, token_in, amount_in, amount_out),
                )
                &&& final(self).pending_swaps@ == old(self).pending_swaps@.remove(swap_id)
            }),
    {
        let pending_swap = match self.pending_swaps.get_mut(&swap_id) {
            Some(pending_swap) => pending_swap,
            None => return Err("Swap commitment not found"),
        };
        if current_block > pending_swap.expiry {
            return Err("Commitment expired");
        }
        if !same_address(&pending_swap.user, &user.owner) {
            return Err("Unauthorized user");
        }
        pending_swap.token_in = token_in;
        pending_swap.amount_in = amount_in;
        pending_swap.min_amount_out = min_amount_out;
        let pool = match self.pools.get(&pool_id) {
            Some(pool) => pool,
            None => return Err("Pool not found"),
        };
        let comes_as_a = same_address(&token_in, &pool.token_a);
        let (in_reserves, out_reserves, token_out) = if comes_as_a {
            (pool.token_a_reserves, pool.token_b_reserves, pool.token_b)
        } else if same_address(&token_in, &pool.token_b) {
            (pool.token_b_reserves, pool.token_a_reserves, pool.token_a)
        } else {
            return Err("Invalid token");
        };
        proof {
            lemma_quote_within_reserves(*pool, token_in, amount_in);
        }
        let amount_out = (amount_in * out_reserves) / (in_reserves + amount_in);
        if amount_out < min_amount_out {
            return Err("Slippage too high");
        }
        settle_user(user, token_in, amount_in, token_out, amount_out);
        let pool = self.pools.get_mut(&pool_id).unwrap();
        if comes_as_a {
            pool.token_a_reserves += amount_in;
            pool.token_b_reserves -= amount_out;
        } else {
            pool.token_b_reserves += amount_in;
            pool.token_a_reserves -= amount_out;
        }
        self.pending_swaps.remove(&swap_id);
        assert(self.pending_swaps@ =~= old(self).pending_swaps@.remove(swap_id));
        Ok(amount_out)
    }
}

} // verus!
