//! A lending protocol with free flash loans that values collateral at the
//! price of the first exchange pool it finds.

use crate::collections::address_map::Address;
use crate::collections::name_map::NameMap;
use crate::text::same_text;
use crate::vulnerabilities::refused;
use std::collections::HashMap;
use vstd::prelude::*;

verus! {

broadcast use vstd::std_specs::hash::group_hash_axioms;

#[derive(Debug, Clone)]
pub struct LendingPool {
    pub token_reserves: u64,
    pub name: String,
}

#[derive(Debug, Clone)]
pub struct UserPosition {
    pub owner: Address,
    pub collateral_token: String,
    pub collateral_amount: u64,
    pub borrowed_token: String,
    pub borrowed_amount: u64,
}

#[derive(Debug)]
pub struct PriceOracle {
    pub token_prices: NameMap<u64>,
}

/// Prices are written in millionths: this is the price 1.0.
pub const PRICE_UNIT: u64 = 1_000_000;

#[derive(Debug, Clone)]
pub struct DexPool {
    pub token_a: String,
    pub token_b: String,
    pub token_a_reserves: u64,
    pub token_b_reserves: u64,
}

/// The price of `base` in `quote` that the reserves of the pool give, in
/// millionths and rounded down; 0 where the pool does not trade the pair.
pub open spec fn pool_price(pool: DexPool, base: Seq<char>, quote: Seq<char>) -> int {
    if base == pool.token_a@ && quote == pool.token_b@ {
        pool.token_b_reserves * PRICE_UNIT / (pool.token_a_reserves as int)
    } else if base == pool.token_b@ && quote == pool.token_a@ {
        pool.token_a_reserves * PRICE_UNIT / (pool.token_b_reserves as int)
    } else {
        0
    }
}

/// Whether the price can be worked out in 64 bits, without dividing by
/// zero.
pub open spec fn price_fits(pool: DexPool, base: Seq<char>, quote: Seq<char>) -> bool {
    if base == pool.token_a@ && quote == pool.token_b@ {
        pool.token_b_reserves * PRICE_UNIT <= u64::MAX && pool.token_a_reserves > 0
    } else if base == pool.token_b@ && quote == pool.token_a@ {
        pool.token_a_reserves * PRICE_UNIT <= u64::MAX && pool.token_b_reserves > 0
    } else {
        true
    }
}

/// The pool after `amount_in` of `token_in` was swapped at constant
/// product of the reserves; the pool as it is where it does not trade the
/// token.
pub open spec fn pool_after_swap(pool: DexPool, token_in: Seq<char>, amount_in: u64) -> DexPool {
    let k = pool.token_a_reserves * pool.token_b_reserves;
    if token_in == pool.token_a@ {
        DexPool {
            token_a_reserves: (pool.token_a_reserves + amount_in) as u64,
            token_b_reserves: (k / (pool.token_a_reserves + amount_in)) as u64,
            ..pool
        }
    } else if token_in == pool.token_b@ {
        DexPool {
            token_b_reserves: (pool.token_b_reserves + amount_in) as u64,
            token_a_reserves: (k / (pool.token_b_reserves + amount_in)) as u64,
            ..pool
        }
    } else {
        pool
    }
}

/// What the swap pays out: what leaves the reserves of the other token.
pub open spec fn swap_out(pool: DexPool, token_in: Seq<char>, amount_in: u64) -> int {
    if token_in == pool.token_a@ {
        pool.token_b_reserves - pool_after_swap(pool, token_in, amount_in).token_b_reserves
    } else if token_in == pool.token_b@ {
        pool.token_a_reserves - pool_after_swap(pool, token_in, amount_in).token_a_reserves
    } else {
        0
    }
}

/// Whether the swap can be worked out in 64 bits, without dividing by
/// zero.
pub open spec fn swap_fits(pool: DexPool, token_in: Seq<char>, amount_in: u64) -> bool {
    &&& pool.token_a_reserves * pool.token_b_reserves <= u64::MAX
    &&& token_in == pool.token_a@ ==> 0 < pool.token_a_reserves + amount_in <= u64::MAX
    &&& token_in != pool.token_a@ && token_in == pool.token_b@ ==> 0 < pool.token_b_reserves
        + amount_in <= u64::MAX
}

/// The product of two reserves, divided by one of them and something more,
/// is not above the other.
pub proof fn lemma_product_share(a: int, b: int, more: int)
    requires
        0 <= a,
        0 <= b,
        0 <= more,
        0 < a + more,
    ensures
        0 <= a * b / (a + more) <= b,
{
    let d = a + more;
    assert(a * b <= d * b) by (nonlinear_arith)
        requires
            0 <= a <= d,
            0 <= b,
    ;
    assert(0 <= a * b) by (nonlinear_arith)
        requires
            0 <= a,
            0 <= b,
    ;
    vstd::arithmetic::div_mod::lemma_div_is_ordered(a * b, d * b, d);
    vstd::arithmetic::div_mod::lemma_div_multiples_vanish(b, d);
    assert(d * b == b * d) by (nonlinear_arith);
    vstd::arithmetic::div_mod::lemma_div_pos_is_pos(a * b, d);
}

impl DexPool {
    /// The price of `base_token` in `quote_token`, in millionths.
    pub fn get_price(&self, base_token: &str, quote_token: &str) -> (price: u64)
        requires
            price_fits(*self, base_token@, quote_token@),
        ensures
            price == pool_price(*self, base_token@, quote_token@),
    {
        if same_text(base_token, self.token_a.as_str()) && same_text(
            quote_token,
            self.token_b.as_str(),
        ) {
            return self.token_b_reserves * PRICE_UNIT / self.token_a_reserves;
        } else if same_text(base_token, self.token_b.as_str()) && same_text(
            quote_token,
            self.token_a.as_str(),
        ) {
            return self.token_a_reserves * PRICE_UNIT / self.token_b_reserves;
        }
        0
    }

    /// Swaps `amount_in` of `token_in` for the other token at constant
    /// product of the reserves, and returns what it pays out. A token that
    /// the pool does not trade changes nothing and pays nothing.
    pub fn swap(&mut self, token_in: &str, amount_in: u64) -> (amount_out: u64)
        requires
            swap_fits(*old(self), token_in@, amount_in),
        ensures
            *final(self) == pool_after_swap(*old(self), token_in@, amount_in),
            amount_out == swap_out(*old(self), token_in@, amount_in),
    {
        let k = self.token_a_reserves * self.token_b_reserves;
        if same_text(token_in, self.token_a.as_str()) {
            proof {
                lemma_product_share(
                    self.token_a_reserves as int,
                    self.token_b_reserves as int,
                    amount_in as int,
                );
            }
            let new_a_reserves = self.token_a_reserves + amount_in;
            let new_b_reserves = k / new_a_reserves;
            let amount_out = self.token_b_reserves - new_b_reserves;
            self.token_a_reserves = new_a_reserves;
            self.token_b_reserves = new_b_reserves;
            return amount_out;
        } else if same_text(token_in, self.token_b.as_str()) {
            proof {
                lemma_product_share(
                    self.token_b_reserves as int,
                    self.token_a_reserves as int,
                    amount_in as int,
                );
                assert(self.token_a_reserves * self.token_b_reserves == self.token_b_reserves
                    * self.token_a_reserves) by (nonlinear_arith);
            }
            let new_b_reserves = self.token_b_reserves + amount_in;
            let new_a_reserves = k / new_b_reserves;
            let amount_out = self.token_a_reserves - new_a_reserves;
            self.token_a_reserves = new_a_reserves;
            self.token_b_reserves = new_b_reserves;
            return amount_out;
        }
        0
    }
}

pub struct LendingProtocol {
    pub lending_pools: NameMap<LendingPool>,
    pub dex_pools: NameMap<DexPool>,
    pub positions: HashMap<u64, UserPosition>,
    pub next_position_id: u64,
    /// Collateral required, in percent of the debt.
    pub liquidation_threshold: u64,
    /// Bonus for liquidators, in percent of the collateral.
    pub liquidation_bonus: u64,
}

/// Whether the pool trades `token`.
pub open spec fn lists(pool: DexPool, token: Seq<char>) -> bool {
    pool.token_a@ == token || pool.token_b@ == token
}

/// The price of `token` in the other token of a pool that trades it.
pub open spec fn quoted_price(pool: DexPool, token: Seq<char>) -> int {
    if pool.token_a@ == token {
        pool_price(pool, token, pool.token_b@)
    } else {
        pool_price(pool, token, pool.token_a@)
    }
}

/// Whether that price can be worked out in 64 bits.
pub open spec fn quote_fits(pool: DexPool, token: Seq<char>) -> bool {
    if pool.token_a@ == token {
        price_fits(pool, token, pool.token_b@)
    } else {
        price_fits(pool, token, pool.token_a@)
    }
}

/// The first pool that trades `token` among the first `upto` pools in
/// `order`.
pub open spec fn first_listing(
    pools: Map<Seq<char>, DexPool>,
    order: Seq<Seq<char>>,
    token: Seq<char>,
    upto: int,
) -> Option<DexPool>
    decreases upto,
{
    if upto <= 0 {
        None
    } else {
        match first_listing(pools, order, token, upto - 1) {
            Some(pool) => Some(pool),
            None => if lists(pools[order[upto - 1]], token) {
                Some(pools[order[upto - 1]])
            } else {
                None
            },
        }
    }
}

/// The value of `amount` tokens at `price`, rounded down.
pub open spec fn value_at(amount: u64, price: int) -> int {
    amount * price / (PRICE_UNIT as int)
}

/// The pools after `amount` left the reserves of `token`.
pub open spec fn pools_after_lending(
    pools: Map<Seq<char>, LendingPool>,
    token: Seq<char>,
    amount: u64,
) -> Map<Seq<char>, LendingPool> {
    pools.insert(
        token,
        LendingPool { token_reserves: (pools[token].token_reserves - amount) as u64, ..pools[token] },
    )
}

/// The pools after `amount` came back to the reserves of `token`.
pub open spec fn pools_after_rollback(
    pools: Map<Seq<char>, LendingPool>,
    token: Seq<char>,
    amount: u64,
) -> Map<Seq<char>, LendingPool> {
    pools.insert(
        token,
        LendingPool { token_reserves: (pools[token].token_reserves + amount) as u64, ..pools[token] },
    )
}

impl LendingProtocol {
    /// The price of `token`: the price that the first exchange pool that
    /// trades it gives, or 1.0 where no pool trades it.
    pub open spec fn token_price(&self, token: Seq<char>) -> int {
        match first_listing(
            self.dex_pools@,
            self.dex_pools.order(),
            token,
            self.dex_pools.order().len() as int,
        ) {
            Some(pool) => quoted_price(pool, token),
            None => PRICE_UNIT as int,
        }
    }

    /// Whether that price can be worked out in 64 bits.
    pub open spec fn token_price_fits(&self, token: Seq<char>) -> bool {
        match first_listing(
            self.dex_pools@,
            self.dex_pools.order(),
            token,
            self.dex_pools.order().len() as int,
        ) {
            Some(pool) => quote_fits(pool, token),
            None => true,
        }
    }

    /// Whether the position has less collateral than the threshold
    /// requires, at the prices of the exchange pools.
    pub open spec fn is_liquidatable(&self, position: UserPosition) -> bool {
        value_at(position.collateral_amount, self.token_price(position.collateral_token@))
            < value_at(position.borrowed_amount, self.token_price(position.borrowed_token@))
            * self.liquidation_threshold / 100
    }

    /// What a liquidation needs in order to be worked out in 64 bits.
    pub open spec fn liquidation_fits(&self, position: UserPosition) -> bool {
        let collateral_price = self.token_price(position.collateral_token@);
        let borrowed_price = self.token_price(position.borrowed_token@);
        &&& self.token_price_fits(position.collateral_token@)
        &&& self.token_price_fits(position.borrowed_token@)
        &&& position.collateral_amount * collateral_price <= u64::MAX
        &&& position.borrowed_amount * borrowed_price <= u64::MAX
        &&& value_at(position.borrowed_amount, borrowed_price) * self.liquidation_threshold
            <= u64::MAX
        &&& self.is_liquidatable(position) ==> {
            &&& position.collateral_amount * self.liquidation_bonus <= u64::MAX
            &&& position.collateral_amount * self.liquidation_bonus / 100
                <= position.collateral_amount
        }
    }

    /// Whether `amount` of `token` can be lent: there is a pool for the
    /// token and it holds as much.
    pub open spec fn can_lend(&self, token: Seq<char>, amount: u64) -> bool {
        self.lending_pools@.contains_key(token) && amount
            <= self.lending_pools@[token].token_reserves
    }

    /// `after` is `self` with `amount` lent out of the pool of `token`.
    pub open spec fn lent(&self, after: Self, token: Seq<char>, amount: u64) -> bool {
        &&& after.lending_pools@ == pools_after_lending(self.lending_pools@, token, amount)
        &&& after.lending_pools.order() == self.lending_pools.order()
        &&& after.dex_pools == self.dex_pools
        &&& after.positions == self.positions
        &&& after.next_position_id == self.next_position_id
        &&& after.liquidation_threshold == self.liquidation_threshold
        &&& after.liquidation_bonus == self.liquidation_bonus
    }

    /// `after` and `res` are what the end of a flash loan of `amount` of
    /// `token` makes of `self`, where the borrower's work ended with
    /// `outcome`. After work that went well the pool has to hold at least
    /// `amount`, and nothing is changed. After work that failed the amount
    /// is put back into the pool and the failure is passed on.
    pub open spec fn settled(
        &self,
        after: Self,
        token: Seq<char>,
        amount: u64,
        outcome: Result<(), &'static str>,
        res: Result<(), &'static str>,
    ) -> bool {
        &&& after.dex_pools == self.dex_pools
        &&& after.positions == self.positions
        &&& after.next_position_id == self.next_position_id
        &&& after.liquidation_threshold == self.liquidation_threshold
        &&& after.liquidation_bonus == self.liquidation_bonus
        &&& after.lending_pools.order() == self.lending_pools.order()
        &&& if !self.lending_pools@.contains_key(token) {
            refused(res, "Pool disappeared during flash loan") && after.lending_pools@
                == self.lending_pools@
        } else if outcome is Ok {
            &&& after.lending_pools@ == self.lending_pools@
            &&& if self.lending_pools@[token].token_reserves < amount {
                refused(res, "Flash loan not repaid")
            } else {
                res == Ok::<(), &'static str>(())
            }
        } else {
            res == outcome && after.lending_pools@ == pools_after_rollback(
                self.lending_pools@,
                token,
                amount,
            )
        }
    }

    pub fn new() -> (protocol: Self)
        ensures
            protocol.lending_pools@ == Map::<Seq<char>, LendingPool>::empty(),
            protocol.dex_pools@ == Map::<Seq<char>, DexPool>::empty(),
            protocol.dex_pools.order() == Seq::<Seq<char>>::empty(),
            protocol.positions@ == Map::<u64, UserPosition>::empty(),
            protocol.next_position_id == 1,
            protocol.liquidation_threshold == 110,
            protocol.liquidation_bonus == 5,
    {
        Self {
            lending_pools: NameMap::new(),
            dex_pools: NameMap::new(),
            positions: HashMap::new(),
            next_position_id: 1,
            liquidation_threshold: 110,
            liquidation_bonus: 5,
        }
    }

    /// Start of a flash loan: takes `amount` out of the pool of `token`.
    pub fn lend(&mut self, token: &str, amount: u64) -> (res: Result<(), &'static str>)
        ensures
            !old(self).lending_pools@.contains_key(token@) ==> refused(res, "Pool not found"),
            old(self).lending_pools@.contains_key(token@) && !old(self).can_lend(token@, amount)
                ==> refused(res, "Insufficient liquidity for flash loan"),
            res is Err
                ==> final(self).lending_pools@ == old(self).lending_pools@
                    && final(self).lending_pools.order() == old(self).lending_pools.order()
                        && final(self).dex_pools
                == old(self).dex_pools && final(self).positions == old(self).positions
                    && final(self).next_position_id == old(self).next_position_id
                        && final(self).liquidation_threshold
                == old(self).liquidation_threshold
                    && final(self).liquidation_bonus == old(self).liquidation_bonus,
            old(self).can_lend(token@, amount)
                ==> res == Ok::<(), &'static str>(())
                    && old(self).lent(*final(self), token@, amount),
    {
        let pool = match self.lending_pools.get_mut(token) {
            Some(pool) => pool,
            None => return Err("Pool not found"),
        };
        if amount > pool.token_reserves {
            return Err("Insufficient liquidity for flash loan");
        }
        pool.token_reserves -= amount;
        Ok(())
    }

    /// End of a flash loan, once the borrower's work has ended with
    /// `outcome`. No fee is asked. Where the work failed, the pool has to
    /// be able to take the amount back within 64 bits.
    pub fn settle(&mut self, token: &str, amount: u64, outcome: Result<(), &'static str>) -> (res:
        Result<(), &'static str>)
        requires
            outcome is Err && old(self).lending_pools@.contains_key(token@)
                ==> old(self).lending_pools@[token@].token_reserves + amount <= u64::MAX,
        ensures
            old(self).settled(*final(self), token@, amount, outcome, res),
    {
        let pool = match self.lending_pools.get_mut(token) {
            Some(pool) => pool,
            None => return Err("Pool disappeared during flash loan"),
        };
        if outcome.is_ok() {
            if pool.token_reserves < amount {
                assert(self.lending_pools@ =~= old(self).lending_pools@);
                return Err("Flash loan not repaid");
            }
        } else {
            pool.token_reserves += amount;
            return outcome;
        }
        assert(self.lending_pools@ =~= old(self).lending_pools@);
        Ok(())
    }

    /// Lends `amount` of `token` for the time that `callback` runs. The
    /// loan is free. The callback has to accept every state of the
    /// protocol, and where it fails leave the pool able to take the amount
    /// back within 64 bits.
    pub fn flash_loan<F: FnOnce(&mut Self) -> Result<(), &'static str>>(
        &mut self,
        token: &str,
        amount: u64,
        callback: F,
    ) -> (res: Result<(), &'static str>)
        requires
            forall|p: &mut Self| callback.requires((p,)),
            forall|p: &mut Self, r: Result<(), &'static str>|
                #![trigger callback.ensures((p,), r)]
                callback.ensures((p,), r) && r is Err && final(p).lending_pools@.contains_key(
                    token@,
                ) ==> final(p).lending_pools@[token@].token_reserves + amount <= u64::MAX,
        ensures
            !old(self).lending_pools@.contains_key(token@) ==> refused(res, "Pool not found"),
            old(self).lending_pools@.contains_key(token@) && !old(self).can_lend(token@, amount)
                ==> refused(res, "Insufficient liquidity for flash loan"),
            !old(self).can_lend(token@, amount)
                ==> final(self).lending_pools@ == old(self).lending_pools@
                    && final(self).dex_pools == old(self).dex_pools
                        && final(self).positions == old(self).positions,
            old(self).can_lend(token@, amount) ==> exists|p: &mut Self, r: Result<(), &'static str>|
                #![trigger callback.ensures((p,), r)]
                {
                    &&& old(self).lent(*p, token@, amount)
                    &&& callback.ensures((p,), r)
                    &&& final(p).settled(*final(self), token@, amount, r, res)
                },
    {
        match self.lend(token, amount) {
            Ok(()) => {},
            Err(reason) => return Err(reason),
        }
        let result = callback(self);
        self.settle(token, amount, result)
    }

    /// Liquidates a position that has too little collateral at the prices
    /// of the exchange pools, by taking it out of the books.
    pub fn liquidate_position(&mut self, position_id: u64, liquidator: Address) -> (res: Result<
        (),
        &'static str,
    >)
        requires
            old(self).positions@.contains_key(position_id) ==> old(self).liquidation_fits(
                old(self).positions@[position_id],
            ),
        ensures
            final(self).lending_pools == old(self).lending_pools,
            final(self).dex_pools == old(self).dex_pools,
            final(self).next_position_id == old(self).next_position_id,
            final(self).liquidation_threshold == old(self).liquidation_threshold,
            final(self).liquidation_bonus == old(self).liquidation_bonus,
            !old(self).positions@.contains_key(position_id) ==> refused(res, "Position not found"),
            old(self).positions@.contains_key(position_id) && !old(self).is_liquidatable(
                old(self).positions@[position_id],
            ) ==> refused(res, "Position is not liquidatable"),
            res is Err ==> final(self).positions@ == old(self).positions@,
            old(self).positions@.contains_key(position_id) && old(self).is_liquidatable(
                old(self).positions@[position_id],
            )
                ==> res == Ok::<(), &'static str>(())
                    && final(self).positions@ == old(self).positions@.remove(position_id),
    {
        let position = match self.positions.get(&position_id) {
            Some(position) => position,
            None => return Err("Position not found"),
        };
        let collateral_price = self.get_token_price(position.collateral_token.as_str());
        let borrowed_price = self.get_token_price(position.borrowed_token.as_str());
        let collateral_value = position.collateral_amount * collateral_price / PRICE_UNIT;
        let debt_value = position.borrowed_amount * borrowed_price / PRICE_UNIT;
        let min_collateral_value = debt_value * self.liquidation_threshold / 100;
        if collateral_value >= min_collateral_value {
            return Err("Position is not liquidatable");
        }
        let liquidation_bonus_amount = position.collateral_amount * self.liquidation_bonus / 100;
        let _liquidator_collateral = position.collateral_amount - liquidation_bonus_amount;
        self.positions.remove(&position_id);
        Ok(())
    }

    /// The price of `token` at the first exchange pool that trades it.
    pub fn get_token_price(&self, token: &str) -> (price: u64)
        requires
            self.token_price_fits(token@),
        ensures
            price == self.token_price(token@),
    {
        let names = self.dex_pools.keys();
        let mut i: usize = 0;
        while i < names.len()
            invariant
                i <= names.len(),
                names@.len() == self.dex_pools.order().len(),
                forall|j: int| 0 <= j < names@.len() ==> #[trigger] names@[j]@
                    == self.dex_pools.order()[j],
                forall|k: Seq<char>|
                    self.dex_pools.order().contains(k) <==> self.dex_pools@.contains_key(k),
                self.token_price_fits(token@),
                first_listing(self.dex_pools@, self.dex_pools.order(), token@, i as int) is None,
            decreases names.len() - i,
        {
            assert(self.dex_pools.order().contains(self.dex_pools.order()[i as int]));
            let pool = self.dex_pools.get(names[i].as_str()).unwrap();
            if same_text(pool.token_a.as_str(), token) || same_text(pool.token_b.as_str(), token) {
                proof {
                    lemma_first_listing_stays(
                        self.dex_pools@,
                        self.dex_pools.order(),
                        token@,
                        i + 1,
                        self.dex_pools.order().len() as int,
                    );
                }
                if same_text(pool.token_a.as_str(), token) {
                    return pool.get_price(token, pool.token_b.as_str());
                } else {
                    return pool.get_price(token, pool.token_a.as_str());
                }
            }
            i += 1;
        }
        PRICE_UNIT
    }

    /// Opens a position and gives it the next number. That number has to
    /// fit in 64 bits.
    pub fn create_position(
        &mut self,
        owner: Address,
        collateral_token: &str,
        collateral_amount: u64,
        borrowed_token: &str,
        borrowed_amount: u64,
    ) -> (position_id: u64)
        requires
            old(self).next_position_id < u64::MAX,
        ensures
            position_id == old(self).next_position_id,
            final(self).next_position_id == old(self).next_position_id + 1,
            final(self).lending_pools == old(self).lending_pools,
            final(self).dex_pools == old(self).dex_pools,
            final(self).liquidation_threshold == old(self).liquidation_threshold,
            final(self).liquidation_bonus == old(self).liquidation_bonus,
            final(self).positions@.dom() == old(self).positions@.dom().insert(position_id),
            forall|k: u64|
                old(self).positions@.contains_key(k) && k != position_id
                    ==> final(self).positions@[k] == old(self).positions@[k],
            ({
                let position = final(self).positions@[position_id];
                &&& position.owner == owner
                &&& position.collateral_token@ == collateral_token@
                &&& position.collateral_amount == collateral_amount
                &&& position.borrowed_token@ == borrowed_token@
                &&& position.borrowed_amount == borrowed_amount
            }),
    {
        let position = UserPosition {
            owner,
            collateral_token: collateral_token.to_owned(),
            collateral_amount,
            borrowed_token: borrowed_token.to_owned(),
            borrowed_amount,
        };
        let position_id = self.next_position_id;
        self.next_position_id += 1;
        self.positions.insert(position_id, position);
        assert(self.positions@.dom() =~= old(self).positions@.dom().insert(position_id));
        position_id
    }
}

/// Once a pool that trades the token is found, it stays the first one
/// however many more pools are looked at.
pub proof fn lemma_first_listing_stays(
    pools: Map<Seq<char>, DexPool>,
    order: Seq<Seq<char>>,
    token: Seq<char>,
    upto: int,
    n: int,
)
    requires
        0 <= upto <= n,
        first_listing(pools, order, token, upto) is Some,
    ensures
        first_listing(pools, order, token, n) == first_listing(pools, order, token, upto),
    decreases n - upto,
{
    if upto < n {
        lemma_first_listing_stays(pools, order, token, upto, n - 1);
    }
}

} // verus!
