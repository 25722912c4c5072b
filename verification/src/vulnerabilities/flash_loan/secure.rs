//! A lending protocol whose flash loans cost a fee and are limited in
//! size, and that values collateral at the average oracle price of the
//! last hour, held against the latest price.

use crate::collections::address_map::Address;
use crate::collections::name_map::{order_with, NameMap};
use crate::text::same_text;
use crate::vulnerabilities::refused;
use std::collections::HashMap;
use std::collections::VecDeque;
use vstd::prelude::*;

verus! {

broadcast use vstd::std_specs::hash::group_hash_axioms;

/// Prices older than this many seconds leave the history.
pub const HISTORY_RETENTION: u64 = 86400;

/// The period of the average price used in liquidations, in seconds.
pub const TWAP_PERIOD: u64 = 3600;

/// How far the latest price may lie from the average, in percent of the
/// average, for a liquidation to go on.
pub const MAX_DEVIATION_PERCENT: u64 = 10;

#[derive(Debug, Clone)]
pub struct LendingPool {
    pub token_reserves: u64,
    pub name: String,
    /// In hundredths of a percent.
    pub flash_loan_fee: u64,
}

#[derive(Debug, Clone)]
pub struct UserPosition {
    pub owner: Address,
    pub collateral_token: String,
    pub collateral_amount: u64,
    pub borrowed_token: String,
    pub borrowed_amount: u64,
}

#[derive(Debug)]
pub struct PriceOracle {
    pub token_prices: NameMap<PriceData>,
    pub current_time: u64,
}

#[derive(Debug, Clone)]
pub struct PriceData {
    pub current_price: u64,
    /// Pairs of time and price, oldest first.
    pub price_history: VecDeque<(u64, u64)>,
}

/// `a - b`, or 0 where `b` is the larger.
pub open spec fn minus_or_zero(a: u64, b: u64) -> u64 {
    if a >= b {
        (a - b) as u64
    } else {
        0
    }
}

/// Whether no entry of the history lies after `now`.
pub open spec fn not_ahead(history: Seq<(u64, u64)>, now: u64) -> bool {
    forall|i: int| 0 <= i < history.len() ==> (#[trigger] history[i]).0 <= now
}

/// The history without the entries at its start that are older than the
/// retention time.
pub open spec fn trimmed(history: Seq<(u64, u64)>, now: u64) -> Seq<(u64, u64)>
    decreases history.len(),
{
    if history.len() > 0 && now - history[0].0 > HISTORY_RETENTION {
        trimmed(history.drop_first(), now)
    } else {
        history
    }
}

/// Sum of the prices among the first `upto` entries that are not older than
/// `min_time`.
pub open spec fn recent_sum(history: Seq<(u64, u64)>, min_time: u64, upto: int) -> nat
    decreases upto,
{
    if upto <= 0 {
        0
    } else if history[upto - 1].0 >= min_time {
        recent_sum(history, min_time, upto - 1) + history[upto - 1].1 as nat
    } else {
        recent_sum(history, min_time, upto - 1)
    }
}

/// Number of entries among the first `upto` that are not older than
/// `min_time`.
pub open spec fn recent_count(history: Seq<(u64, u64)>, min_time: u64, upto: int) -> nat
    decreases upto,
{
    if upto <= 0 {
        0
    } else if history[upto - 1].0 >= min_time {
        recent_count(history, min_time, upto - 1) + 1
    } else {
        recent_count(history, min_time, upto - 1)
    }
}

/// The sum over a shorter part of the history is not larger.
pub proof fn lemma_recent_sum_grows(history: Seq<(u64, u64)>, min_time: u64, upto: int, n: int)
    requires
        upto <= n,
    ensures
        recent_sum(history, min_time, upto) <= recent_sum(history, min_time, n),
    decreases n - upto,
{
    if upto < n {
        lemma_recent_sum_grows(history, min_time, upto, n - 1);
    }
}

/// The history of a token: empty where the oracle does not know it.
pub open spec fn history_of(prices: Map<Seq<char>, PriceData>, token: Seq<char>) -> Seq<(u64, u64)> {
    if prices.contains_key(token) {
        prices[token].price_history@
    } else {
        Seq::empty()
    }
}

impl PriceOracle {
    /// The average of the prices of `token` in the last `period` seconds,
    /// rounded down, where the oracle has any.
    pub open spec fn twap(&self, token: Seq<char>, period: u64) -> Option<int> {
        let history = history_of(self.token_prices@, token);
        let min_time = minus_or_zero(self.current_time, period);
        let n = history.len() as int;
        if recent_count(history, min_time, n) == 0 {
            None
        } else {
            Some(recent_sum(history, min_time, n) as int / recent_count(history, min_time, n) as int)
        }
    }

    /// Whether the sum behind `twap` fits in 64 bits.
    pub open spec fn twap_fits(&self, token: Seq<char>, period: u64) -> bool {
        let history = history_of(self.token_prices@, token);
        recent_sum(history, minus_or_zero(self.current_time, period), history.len() as int)
            <= u64::MAX
    }

    /// The latest price of `token`, where the oracle knows the token.
    pub open spec fn spot(&self, token: Seq<char>) -> Option<u64> {
        if self.token_prices@.contains_key(token) {
            Some(self.token_prices@[token].current_price)
        } else {
            None
        }
    }

    pub fn new() -> (oracle: Self)
        ensures
            oracle.token_prices@ == Map::<Seq<char>, PriceData>::empty(),
            oracle.current_time == 0,
    {
        Self { token_prices: NameMap::new(), current_time: 0 }
    }

    /// Takes up a new price of `token`, writes it into the history with
    /// the time, and drops the entries at the start of the history that
    /// are older than the retention time. No entry of the history may lie
    /// after the oracle's time.
    pub fn update_price(&mut self, token: &str, price: u64)
        requires
            not_ahead(history_of(old(self).token_prices@, token@), old(self).current_time),
        ensures
            final(self).token_prices.order() == order_with(old(self).token_prices.order(), token@),
            final(self).current_time == old(self).current_time,
            final(self).token_prices@.dom() == old(self).token_prices@.dom().insert(token@),
            forall|k: Seq<char>|
                old(self).token_prices@.contains_key(k) && k != token@
                    ==> final(self).token_prices@[k] == old(self).token_prices@[k],
            final(self).token_prices@[token@].current_price == price,
            final(self).token_prices@[token@].price_history@ == trimmed(
                history_of(old(self).token_prices@, token@).push((old(self).current_time, price)),
                old(self).current_time,
            ),
    {
        if !self.token_prices.contains_key(token) {
            self.token_prices.insert(
                token.to_owned(),
                PriceData { current_price: price, price_history: VecDeque::new() },
            );
        }
        let now = self.current_time;
        let price_data = self.token_prices.get_mut(token).unwrap();
        price_data.current_price = price;
        price_data.price_history.push_back((now, price));
        let ghost full = price_data.price_history@;
        assert(full =~= history_of(old(self).token_prices@, token@).push((now, price)));
        loop
            invariant
                not_ahead(price_data.price_history@, now),
                trimmed(full, now) == trimmed(price_data.price_history@, now),
                price_data.current_price == price,
            ensures
                price_data.price_history@ == trimmed(full, now),
            decreases price_data.price_history@.len(),
        {
            if price_data.price_history.len() == 0 {
                break;
            }
            let timestamp = price_data.price_history[0].0;
            if now - timestamp > HISTORY_RETENTION {
                let ghost before = price_data.price_history@;
                price_data.price_history.pop_front();
                assert(price_data.price_history@ =~= before.drop_first());
                assert forall|i: int| 0 <= i < price_data.price_history@.len() implies (
                #[trigger] price_data.price_history@[i]).0 <= now by {
                    assert(price_data.price_history@[i] == before[i + 1]);
                }
            } else {
                break;
            }
        }
        assert(self.token_prices@.dom() =~= old(self).token_prices@.dom().insert(token@));
    }

    /// The latest price of `token`.
    pub fn get_spot_price(&self, token: &str) -> (price: Option<u64>)
        ensures
            price == self.spot(token@),
    {
        match self.token_prices.get(token) {
            Some(data) => Some(data.current_price),
            None => None,
        }
    }

    /// The average of the prices of `token` in the last `period` seconds.
    /// The sum of those prices has to fit in 64 bits.
    pub fn get_twap(&self, token: &str, period: u64) -> (average: Option<u64>)
        requires
            self.twap_fits(token@, period),
        ensures
            self.twap(token@, period) is None ==> average is None,
            self.twap(token@, period) matches Some(value) ==> average == Some(value as u64)
                && value <= u64::MAX,
    {
        let price_data = match self.token_prices.get(token) {
            Some(data) => data,
            None => return None,
        };
        let min_time = self.current_time.saturating_sub(period);
        let mut sum: u64 = 0;
        let mut count: u64 = 0;
        let mut i: usize = 0;
        let ghost history = price_data.price_history@;
        let ghost n = history.len() as int;
        while i < price_data.price_history.len()
            invariant
                i <= price_data.price_history.len(),
                history == price_data.price_history@,
                n == history.len(),
                recent_sum(history, min_time, n) <= u64::MAX,
                sum == recent_sum(history, min_time, i as int),
                count == recent_count(history, min_time, i as int),
                count <= i,
            decreases price_data.price_history.len() - i,
        {
            proof {
                lemma_recent_sum_grows(history, min_time, i + 1, n);
            }
            if price_data.price_history[i].0 >= min_time {
                sum = sum + price_data.price_history[i].1;
                count = count + 1;
            }
            i += 1;
        }
        if count == 0 {
            return None;
        }
        proof {
            vstd::arithmetic::div_mod::lemma_div_is_ordered_by_denominator(
                sum as int,
                1,
                count as int,
            );
            vstd::arithmetic::div_mod::lemma_div_basics(sum as int);
        }
        Some(sum / count)
    }

    /// Moves the clock forward. The new time has to fit in 64 bits.
    pub fn advance_time(&mut self, seconds: u64)
        requires
            old(self).current_time + seconds <= u64::MAX,
        ensures
            final(self).current_time == old(self).current_time + seconds,
            final(self).token_prices == old(self).token_prices,
    {
        self.current_time += seconds;
    }
}

/// Prices are written in millionths: this is the price 1.0.
pub const PRICE_UNIT: u64 = 1_000_000;

#[derive(Debug, Clone)]
pub struct DexPool {
    pub token_a: String,
    pub token_b: String,
    pub token_a_reserves: u64,
    pub token_b_reserves: u64,
}

/// The price of `base` in `quote` that the reserves of the pool give, in
/// millionths and rounded down; 0 where the pool does not trade the pair.
pub open spec fn pool_price(pool: DexPool, base: Seq<char>, quote: Seq<char>) -> int {
    if base == pool.token_a@ && quote == pool.token_b@ {
        pool.token_b_reserves * PRICE_UNIT / (pool.token_a_reserves as int)
    } else if base == pool.token_b@ && quote == pool.token_a@ {
        pool.token_a_reserves * PRICE_UNIT / (pool.token_b_reserves as int)
    } else {
        0
    }
}

/// Whether the price can be worked out in 64 bits, without dividing by
/// zero.
pub open spec fn price_fits(pool: DexPool, base: Seq<char>, quote: Seq<char>) -> bool {
    if base == pool.token_a@ && quote == pool.token_b@ {
        pool.token_b_reserves * PRICE_UNIT <= u64::MAX && pool.token_a_reserves > 0
    } else if base == pool.token_b@ && quote == pool.token_a@ {
        pool.token_a_reserves * PRICE_UNIT <= u64::MAX && pool.token_b_reserves > 0
    } else {
        true
    }
}

/// The pool after `amount_in` of `token_in` was swapped at constant
/// product of the reserves; the pool as it is where it does not trade the
/// token.
pub open spec fn pool_after_swap(pool: DexPool, token_in: Seq<char>, amount_in: u64) -> DexPool {
    let k = pool.token_a_reserves * pool.token_b_reserves;
    if token_in == pool.token_a@ {
        DexPool {
            token_a_reserves: (pool.token_a_reserves + amount_in) as u64,
            token_b_reserves: (k / (pool.token_a_reserves + amount_in)) as u64,
            ..pool
        }
    } else if token_in == pool.token_b@ {
        DexPool {
            token_b_reserves: (pool.token_b_reserves + amount_in) as u64,
            token_a_reserves: (k / (pool.token_b_reserves + amount_in)) as u64,
            ..pool
        }
    } else {
        pool
    }
}

/// What the swap pays out: what leaves the reserves of the other token.
pub open spec fn swap_out(pool: DexPool, token_in: Seq<char>, amount_in: u64) -> int {
    if token_in == pool.token_a@ {
        pool.token_b_reserves - pool_after_swap(pool, token_in, amount_in).token_b_reserves
    } else if token_in == pool.token_b@ {
        pool.token_a_reserves - pool_after_swap(pool, token_in, amount_in).token_a_reserves
    } else {
        0
    }
}

/// Whether the swap can be worked out in 64 bits, without dividing by
/// zero.
pub open spec fn swap_fits(pool: DexPool, token_in: Seq<char>, amount_in: u64) -> bool {
    &&& pool.token_a_reserves * pool.token_b_reserves <= u64::MAX
    &&& token_in == pool.token_a@ ==> 0 < pool.token_a_reserves + amount_in <= u64::MAX
    &&& token_in != pool.token_a@ && token_in == pool.token_b@ ==> 0 < pool.token_b_reserves
        + amount_in <= u64::MAX
}

/// The product of two reserves, divided by one of them and something more,
/// is not above the other.
pub proof fn lemma_product_share(a: int, b: int, more: int)
    requires
        0 <= a,
        0 <= b,
        0 <= more,
        0 < a + more,
    ensures
        0 <= a * b / (a + more) <= b,
{
    let d = a + more;
    assert(a * b <= d * b) by (nonlinear_arith)
        requires
            0 <= a <= d,
            0 <= b,
    ;
    assert(0 <= a * b) by (nonlinear_arith)
        requires
            0 <= a,
            0 <= b,
    ;
    vstd::arithmetic::div_mod::lemma_div_is_ordered(a * b, d * b, d);
    vstd::arithmetic::div_mod::lemma_div_multiples_vanish(b, d);
    assert(d * b == b * d) by (nonlinear_arith);
    vstd::arithmetic::div_mod::lemma_div_pos_is_pos(a * b, d);
}

impl DexPool {
    /// The price of `base_token` in `quote_token`, in millionths.
    pub fn get_price(&self, base_token: &str, quote_token: &str) -> (price: u64)
        requires
            price_fits(*self, base_token@, quote_token@),
        ensures
            price == pool_price(*self, base_token@, quote_token@),
    {
        if same_text(base_token, self.token_a.as_str()) && same_text(
            quote_token,
            self.token_b.as_str(),
        ) {
            return self.token_b_reserves * PRICE_UNIT / self.token_a_reserves;
        } else if same_text(base_token, self.token_b.as_str()) && same_text(
            quote_token,
            self.token_a.as_str(),
        ) {
            return self.token_a_reserves * PRICE_UNIT / self.token_b_reserves;
        }
        0
    }

    /// Swaps `amount_in` of `token_in` for the other token at constant
    /// product of the reserves, and returns what it pays out. A token that
    /// the pool does not trade changes nothing and pays nothing.
    pub fn swap(&mut self, token_in: &str, amount_in: u64) -> (amount_out: u64)
        requires
            swap_fits(*old(self), token_in@, amount_in),
        ensures
            *final(self) == pool_after_swap(*old(self), token_in@, amount_in),
            amount_out == swap_out(*old(self), token_in@, amount_in),
    {
        let k = self.token_a_reserves * self.token_b_reserves;
        if same_text(token_in, self.token_a.as_str()) {
            proof {
                lemma_product_share(
                    self.token_a_reserves as int,
                    self.token_b_reserves as int,
                    amount_in as int,
                );
            }
            let new_a_reserves = self.token_a_reserves + amount_in;
            let new_b_reserves = k / new_a_reserves;
            let amount_out = self.token_b_reserves - new_b_reserves;
            self.token_a_reserves = new_a_reserves;
            self.token_b_reserves = new_b_reserves;
            return amount_out;
        } else if same_text(token_in, self.token_b.as_str()) {
            proof {
                lemma_product_share(
                    self.token_b_reserves as int,
                    self.token_a_reserves as int,
                    amount_in as int,
                );
                assert(self.token_a_reserves * self.token_b_reserves == self.token_b_reserves
                    * self.token_a_reserves) by (nonlinear_arith);
            }
            let new_b_reserves = self.token_b_reserves + amount_in;
            let new_a_reserves = k / new_b_reserves;
            let amount_out = self.token_a_reserves - new_a_reserves;
            self.token_a_reserves = new_a_reserves;
            self.token_b_reserves = new_b_reserves;
            return amount_out;
        }
        0
    }
}

pub struct LendingProtocol {
    pub lending_pools: NameMap<LendingPool>,
    pub dex_pools: NameMap<DexPool>,
    pub positions: HashMap<u64, UserPosition>,
    pub next_position_id: u64,
    /// Collateral required, in percent of the debt.
    pub liquidation_threshold: u64,
    /// Bonus for liquidators, in percent of the collateral.
    pub liquidation_bonus: u64,
    pub price_oracle: PriceOracle,
    /// The largest flash loan, in percent of the pool.
    pub max_flash_loan_amount: u64,
}

/// What a flash loan has to bring back: the reserves of the pool before the
/// loan, and the fee.
#[derive(Debug, Clone, Copy)]
pub struct LoanTerms {
    pub initial_reserves: u64,
    pub fee_amount: u64,
}

/// The value of `amount` tokens at `price`, rounded down.
pub open spec fn value_at(amount: u64, price: int) -> int {
    amount * price / (PRICE_UNIT as int)
}

/// Whether the latest price lies further from the average than the
/// deviation allows.
pub open spec fn deviates(spot: u64, average: int) -> bool {
    let allowed = average * MAX_DEVIATION_PERCENT / 100;
    (spot > average && spot - average > allowed) || (average > spot && average - spot > allowed)
}

/// The pools with the reserves of `token` set to `reserves`.
pub open spec fn pools_with_reserves(
    pools: Map<Seq<char>, LendingPool>,
    token: Seq<char>,
    reserves: int,
) -> Map<Seq<char>, LendingPool> {
    pools.insert(token, LendingPool { token_reserves: reserves as u64, ..pools[token] })
}

impl LendingProtocol {
    /// The largest amount of `token` that can be lent in a flash loan.
    pub open spec fn max_loan(&self, token: Seq<char>) -> int {
        self.lending_pools@[token].token_reserves * self.max_flash_loan_amount / 100
    }

    /// The fee for a flash loan of `amount` of `token`.
    pub open spec fn loan_fee(&self, token: Seq<char>, amount: u64) -> int {
        amount * self.lending_pools@[token].flash_loan_fee / 10000
    }

    /// Whether `amount` of `token` can be lent: there is a pool for the
    /// token and the amount is within the limit.
    pub open spec fn can_lend(&self, token: Seq<char>, amount: u64) -> bool {
        self.lending_pools@.contains_key(token) && amount <= self.max_loan(token)
    }

    /// What the start of a flash loan needs in order to be worked out in
    /// 64 bits.
    pub open spec fn lend_fits(&self, token: Seq<char>, amount: u64) -> bool {
        self.lending_pools@.contains_key(token) ==> {
            let reserves = self.lending_pools@[token].token_reserves;
            &&& reserves * self.max_flash_loan_amount <= u64::MAX
            &&& amount <= self.max_loan(token) ==> {
                &&& amount * self.lending_pools@[token].flash_loan_fee <= u64::MAX
                &&& amount + self.loan_fee(token, amount) <= u64::MAX
                &&& reserves + self.loan_fee(token, amount) <= u64::MAX
                &&& amount <= reserves
            }
        }
    }

    /// `after` is `self` with `amount` lent out of the pool of `token`.
    pub open spec fn lent(&self, after: Self, token: Seq<char>, amount: u64) -> bool {
        &&& after.lending_pools@ == pools_with_reserves(
            self.lending_pools@,
            token,
            self.lending_pools@[token].token_reserves - amount,
        )
        &&& after.lending_pools.order() == self.lending_pools.order()
        &&& after.dex_pools == self.dex_pools
        &&& after.positions == self.positions
        &&& after.next_position_id == self.next_position_id
        &&& after.liquidation_threshold == self.liquidation_threshold
        &&& after.liquidation_bonus == self.liquidation_bonus
        &&& after.price_oracle == self.price_oracle
        &&& after.max_flash_loan_amount == self.max_flash_loan_amount
    }

    /// `after` and `res` are what the end of a flash loan of `token` makes
    /// of `self`, where the borrower's work ended with `outcome`. After
    /// work that went well the pool has to hold its old reserves and the
    /// fee, and nothing is changed. After work that failed the reserves
    /// are set back to what they were and the failure is passed on.
    pub open spec fn settled(
        &self,
        after: Self,
        token: Seq<char>,
        terms: LoanTerms,
        outcome: Result<(), &'static str>,
        res: Result<(), &'static str>,
    ) -> bool {
        &&& after.dex_pools == self.dex_pools
        &&& after.positions == self.positions
        &&& after.next_position_id == self.next_position_id
        &&& after.liquidation_threshold == self.liquidation_threshold
        &&& after.liquidation_bonus == self.liquidation_bonus
        &&& after.price_oracle == self.price_oracle
        &&& after.max_flash_loan_amount == self.max_flash_loan_amount
        &&& after.lending_pools.order() == self.lending_pools.order()
        &&& if !self.lending_pools@.contains_key(token) {
            refused(res, "Pool disappeared during flash loan") && after.lending_pools@
                == self.lending_pools@
        } else if outcome is Ok {
            &&& after.lending_pools@ == self.lending_pools@
            &&& if self.lending_pools@[token].token_reserves < terms.initial_reserves
                + terms.fee_amount {
                refused(res, "Flash loan not repaid with fee")
            } else {
                res == Ok::<(), &'static str>(())
            }
        } else {
            res == outcome && after.lending_pools@ == pools_with_reserves(
                self.lending_pools@,
                token,
                terms.initial_reserves as int,
            )
        }
    }

    /// Whether the oracle has all the prices that a liquidation of the
    /// position needs, and the latest price of the collateral lies near
    /// its average.
    pub open spec fn prices_are_sound(&self, position: UserPosition) -> bool {
        &&& self.price_oracle.twap(position.collateral_token@, TWAP_PERIOD) is Some
        &&& self.price_oracle.twap(position.borrowed_token@, TWAP_PERIOD) is Some
        &&& self.price_oracle.spot(position.collateral_token@) is Some
        &&& !deviates(
            self.price_oracle.spot(position.collateral_token@)->0,
            self.price_oracle.twap(position.collateral_token@, TWAP_PERIOD)->0,
        )
    }

    /// Whether the position has less collateral than the threshold
    /// requires, at the average prices of the last hour.
    pub open spec fn is_liquidatable(&self, position: UserPosition) -> bool {
        value_at(
            position.collateral_amount,
            self.price_oracle.twap(position.collateral_token@, TWAP_PERIOD)->0,
        ) < value_at(
            position.borrowed_amount,
            self.price_oracle.twap(position.borrowed_token@, TWAP_PERIOD)->0,
        ) * self.liquidation_threshold / 100
    }

    /// What a liquidation needs in order to be worked out in 64 bits.
    pub open spec fn liquidation_fits(&self, position: UserPosition) -> bool {
        let collateral_price = self.price_oracle.twap(position.collateral_token@, TWAP_PERIOD);
        let borrowed_price = self.price_oracle.twap(position.borrowed_token@, TWAP_PERIOD);
        &&& self.price_oracle.twap_fits(position.collateral_token@, TWAP_PERIOD)
        &&& collateral_price is Some ==> self.price_oracle.twap_fits(
            position.borrowed_token@,
            TWAP_PERIOD,
        )
        &&& collateral_price is Some && borrowed_price is Some ==> {
            &&& position.collateral_amount * collateral_price->0 <= u64::MAX
            &&& position.borrowed_amount * borrowed_price->0 <= u64::MAX
            &&& collateral_price->0 * MAX_DEVIATION_PERCENT <= u64::MAX
        }
        &&& self.prices_are_sound(position) ==> {
            &&& value_at(position.borrowed_amount, borrowed_price->0) * self.liquidation_threshold
                <= u64::MAX
            &&& self.is_liquidatable(position) ==> {
                &&& position.collateral_amount * self.liquidation_bonus <= u64::MAX
                &&& position.collateral_amount * self.liquidation_bonus / 100
                    <= position.collateral_amount
            }
        }
    }

    pub fn new() -> (protocol: Self)
        ensures
            protocol.lending_pools@ == Map::<Seq<char>, LendingPool>::empty(),
            protocol.dex_pools@ == Map::<Seq<char>, DexPool>::empty(),
            protocol.positions@ == Map::<u64, UserPosition>::empty(),
            protocol.next_position_id == 1,
            protocol.liquidation_threshold == 110,
            protocol.liquidation_bonus == 5,
            protocol.price_oracle.token_prices@ == Map::<Seq<char>, PriceData>::empty(),
            protocol.price_oracle.current_time == 0,
            protocol.max_flash_loan_amount == 50,
    {
        Self {
            lending_pools: NameMap::new(),
            dex_pools: NameMap::new(),
            positions: HashMap::new(),
            next_position_id: 1,
            liquidation_threshold: 110,
            liquidation_bonus: 5,
            price_oracle: PriceOracle::new(),
            max_flash_loan_amount: 50,
        }
    }

    /// Start of a flash loan: takes `amount` out of the pool of `token`,
    /// where the amount is within the limit, and returns what has to come
    /// back.
    pub fn lend(&mut self, token: &str, amount: u64) -> (res: Result<LoanTerms, &'static str>)
        requires
            old(self).lend_fits(token@, amount),
        ensures
            !old(self).lending_pools@.contains_key(token@) ==> refused(res, "Pool not found"),
            old(self).lending_pools@.contains_key(token@) && !old(self).can_lend(token@, amount)
                ==> refused(res, "Flash loan exceeds maximum allowed amount"),
            res is Err
                ==> final(self).lending_pools@ == old(self).lending_pools@
                    && final(self).lending_pools.order() == old(self).lending_pools.order()
                        && final(self).dex_pools
                == old(self).dex_pools && final(self).positions == old(self).positions
                    && final(self).next_position_id == old(self).next_position_id
                        && final(self).liquidation_threshold
                == old(self).liquidation_threshold
                    && final(self).liquidation_bonus == old(self).liquidation_bonus
                        && final(self).price_oracle == old(self).price_oracle
                            && final(self).max_flash_loan_amount == old(self).max_flash_loan_amount,
            old(self).can_lend(token@, amount) ==> res == Ok::<LoanTerms, &'static str>(
                LoanTerms {
                    initial_reserves: old(self).lending_pools@[token@].token_reserves,
                    fee_amount: old(self).loan_fee(token@, amount) as u64,
                },
            ) && old(self).lent(*final(self), token@, amount),
    {
        let max_percent = self.max_flash_loan_amount;
        let pool = match self.lending_pools.get_mut(token) {
            Some(pool) => pool,
            None => return Err("Pool not found"),
        };
        let max_loan = pool.token_reserves * max_percent / 100;
        if amount > max_loan {
            return Err("Flash loan exceeds maximum allowed amount");
        }
        let fee_amount = amount * pool.flash_loan_fee / 10000;
        let _repay_amount = amount + fee_amount;
        let initial_reserves = pool.token_reserves;
        pool.token_reserves -= amount;
        Ok(LoanTerms { initial_reserves, fee_amount })
    }

    /// End of a flash loan, once the borrower's work has ended with
    /// `outcome`. The old reserves and the fee have to fit in 64 bits
    /// together.
    pub fn settle(&mut self, token: &str, terms: LoanTerms, outcome: Result<(), &'static str>) -> (res:
        Result<(), &'static str>)
        requires
            terms.initial_reserves + terms.fee_amount <= u64::MAX,
        ensures
            old(self).settled(*final(self), token@, terms, outcome, res),
    {
        let pool = match self.lending_pools.get_mut(token) {
            Some(pool) => pool,
            None => return Err("Pool disappeared during flash loan"),
        };
        if outcome.is_ok() {
            if pool.token_reserves < terms.initial_reserves + terms.fee_amount {
                assert(self.lending_pools@ =~= old(self).lending_pools@);
                return Err("Flash loan not repaid with fee");
            }
        } else {
            pool.token_reserves = terms.initial_reserves;
            return outcome;
        }
        assert(self.lending_pools@ =~= old(self).lending_pools@);
        Ok(())
    }

    /// Lends `amount` of `token` for the time that `callback` runs. The
    /// loan is limited to a share of the pool and has to come back with a
    /// fee. The callback has to accept every state of the protocol.
    pub fn flash_loan<F: FnOnce(&mut Self) -> Result<(), &'static str>>(
        &mut self,
        token: &str,
        amount: u64,
        callback: F,
    ) -> (res: Result<(), &'static str>)
        requires
            old(self).lend_fits(token@, amount),
            forall|p: &mut Self| callback.requires((p,)),
        ensures
            !old(self).lending_pools@.contains_key(token@) ==> refused(res, "Pool not found"),
            old(self).lending_pools@.contains_key(token@) && !old(self).can_lend(token@, amount)
                ==> refused(res, "Flash loan exceeds maximum allowed amount"),
            !old(self).can_lend(token@, amount)
                ==> final(self).lending_pools@ == old(self).lending_pools@
                    && final(self).dex_pools == old(self).dex_pools
                        && final(self).positions == old(self).positions
                            && final(self).price_oracle == old(self).price_oracle,
            old(self).can_lend(token@, amount) ==> exists|p: &mut Self, r: Result<(), &'static str>|
                #![trigger callback.ensures((p,), r)]
                {
                    &&& old(self).lent(*p, token@, amount)
                    &&& callback.ensures((p,), r)
                    &&& final(p).settled(
                        *final(self),
                        token@,
                        LoanTerms {
                            initial_reserves: old(self).lending_pools@[token@].token_reserves,
                            fee_amount: old(self).loan_fee(token@, amount) as u64,
                        },
                        r,
                        res,
                    )
                },
    {
        let terms = match self.lend(token, amount) {
            Ok(terms) => terms,
            Err(reason) => return Err(reason),
        };
        let result = callback(self);
        self.settle(token, terms, result)
    }

    /// Liquidates a position that has too little collateral at the average
    /// prices of the last hour, by taking it out of the books. Nothing is
    /// liquidated while the latest price of the collateral lies far from
    /// its average.
    pub fn liquidate_position(&mut self, position_id: u64, liquidator: Address) -> (res: Result<
        (),
        &'static str,
    >)
        requires
            old(self).positions@.contains_key(position_id) ==> old(self).liquidation_fits(
                old(self).positions@[position_id],
            ),
        ensures
            final(self).lending_pools == old(self).lending_pools,
            final(self).dex_pools == old(self).dex_pools,
            final(self).next_position_id == old(self).next_position_id,
            final(self).liquidation_threshold == old(self).liquidation_threshold,
            final(self).liquidation_bonus == old(self).liquidation_bonus,
            final(self).price_oracle == old(self).price_oracle,
            final(self).max_flash_loan_amount == old(self).max_flash_loan_amount,
            !old(self).positions@.contains_key(position_id) ==> refused(res, "Position not found"),
            old(self).positions@.contains_key(position_id) ==> ({
                let position = old(self).positions@[position_id];
                let oracle = old(self).price_oracle;
                let collateral_price = oracle.twap(position.collateral_token@, TWAP_PERIOD);
                let borrowed_price = oracle.twap(position.borrowed_token@, TWAP_PERIOD);
                let spot = oracle.spot(position.collateral_token@);
                &&& collateral_price is None ==> refused(
                    res,
                    "Insufficient price data for collateral token",
                )
                &&& collateral_price is Some && borrowed_price is None ==> refused(
                    res,
                    "Insufficient price data for borrowed token",
                )
                &&& collateral_price is Some && borrowed_price is Some && spot is None ==> refused(
                    res,
                    "No spot price for collateral token",
                )
                &&& collateral_price is Some && borrowed_price is Some && spot is Some && deviates(
                    spot->0,
                    collateral_price->0,
                ) ==> refused(res, "Suspicious price movement detected, liquidation blocked")
                &&& old(self).prices_are_sound(position) && !old(self).is_liquidatable(position)
                    ==> refused(res, "Position is not liquidatable")
                &&& old(self).prices_are_sound(position) && old(self).is_liquidatable(position)
                    ==> res == Ok::<(), &'static str>(())
                        && final(self).positions@ == old(self).positions@.remove(position_id)
            }),
            res is Err ==> final(self).positions@ == old(self).positions@,
    {
        let position = match self.positions.get(&position_id) {
            Some(position) => position,
            None => return Err("Position not found"),
        };
        let collateral_token = position.collateral_token.as_str();
        let borrowed_token = position.borrowed_token.as_str();
        let collateral_price = match self.price_oracle.get_twap(collateral_token, TWAP_PERIOD) {
            Some(price) => price,
            None => return Err("Insufficient price data for collateral token"),
        };
        let borrowed_price = match self.price_oracle.get_twap(borrowed_token, TWAP_PERIOD) {
            Some(price) => price,
            None => return Err("Insufficient price data for borrowed token"),
        };
        let collateral_value = position.collateral_amount * collateral_price / PRICE_UNIT;
        let debt_value = position.borrowed_amount * borrowed_price / PRICE_UNIT;
        let spot_collateral_price = match self.price_oracle.get_spot_price(collateral_token) {
            Some(price) => price,
            None => return Err("No spot price for collateral token"),
        };
        let max_deviation = collateral_price * MAX_DEVIATION_PERCENT / 100;
        if spot_collateral_price > collateral_price && spot_collateral_price - collateral_price
            > max_deviation {
            return Err("Suspicious price movement detected, liquidation blocked");
        }
        if collateral_price > spot_collateral_price && collateral_price - spot_collateral_price
            > max_deviation {
            return Err("Suspicious price movement detected, liquidation blocked");
        }
        let min_collateral_value = debt_value * self.liquidation_threshold / 100;
        if collateral_value >= min_collateral_value {
            return Err("Position is not liquidatable");
        }
        let liquidation_bonus_amount = position.collateral_amount * self.liquidation_bonus / 100;
        let _liquidator_collateral = position.collateral_amount - liquidation_bonus_amount;
        self.positions.remove(&position_id);
        Ok(())
    }

    /// Hands the oracle a new price of `token`.
    pub fn update_oracle_price(&mut self, token: &str, price: u64)
        requires
            not_ahead(
                history_of(old(self).price_oracle.token_prices@, token@),
                old(self).price_oracle.current_time,
            ),
        ensures
            final(self).price_oracle.token_prices.order() == order_with(
                old(self).price_oracle.token_prices.order(),
                token@,
            ),
            final(self).lending_pools == old(self).lending_pools,
            final(self).dex_pools == old(self).dex_pools,
            final(self).positions == old(self).positions,
            final(self).next_position_id == old(self).next_position_id,
            final(self).liquidation_threshold == old(self).liquidation_threshold,
            final(self).liquidation_bonus == old(self).liquidation_bonus,
            final(self).max_flash_loan_amount == old(self).max_flash_loan_amount,
            final(self).price_oracle.current_time == old(self).price_oracle.current_time,
            final(self).price_oracle.token_prices@.dom()
                == old(self).price_oracle.token_prices@.dom().insert(token@),
            forall|k: Seq<char>|
                old(self).price_oracle.token_prices@.contains_key(k) && k != token@
                    ==> final(self).price_oracle.token_prices@[k]
                        == old(self).price_oracle.token_prices@[k],
            final(self).price_oracle.token_prices@[token@].current_price == price,
            final(self).price_oracle.token_prices@[token@].price_history@ == trimmed(
                history_of(old(self).price_oracle.token_prices@, token@).push(
                    (old(self).price_oracle.current_time, price),
                ),
                old(self).price_oracle.current_time,
            ),
    {
        self.price_oracle.update_price(token, price);
    }

    /// Moves the oracle's clock forward. The new time has to fit in 64
    /// bits.
    pub fn advance_oracle_time(&mut self, seconds: u64)
        requires
            old(self).price_oracle.current_time + seconds <= u64::MAX,
        ensures
            final(self).lending_pools == old(self).lending_pools,
            final(self).dex_pools == old(self).dex_pools,
            final(self).positions == old(self).positions,
            final(self).next_position_id == old(self).next_position_id,
            final(self).liquidation_threshold == old(self).liquidation_threshold,
            final(self).liquidation_bonus == old(self).liquidation_bonus,
            final(self).max_flash_loan_amount == old(self).max_flash_loan_amount,
            final(self).price_oracle.current_time == old(self).price_oracle.current_time + seconds,
            final(self).price_oracle.token_prices == old(self).price_oracle.token_prices,
    {
        self.price_oracle.advance_time(seconds);
    }

    /// Opens a position and gives it the next number. That number has to
    /// fit in 64 bits.
    pub fn create_position(
        &mut self,
        owner: Address,
        collateral_token: &str,
        collateral_amount: u64,
        borrowed_token: &str,
        borrowed_amount: u64,
    ) -> (position_id: u64)
        requires
            old(self).next_position_id < u64::MAX,
        ensures
            position_id == old(self).next_position_id,
            final(self).next_position_id == old(self).next_position_id + 1,
            final(self).lending_pools == old(self).lending_pools,
            final(self).dex_pools == old(self).dex_pools,
            final(self).liquidation_threshold == old(self).liquidation_threshold,
            final(self).liquidation_bonus == old(self).liquidation_bonus,
            final(self).price_oracle == old(self).price_oracle,
            final(self).max_flash_loan_amount == old(self).max_flash_loan_amount,
            final(self).positions@.dom() == old(self).positions@.dom().insert(position_id),
            forall|k: u64|
                old(self).positions@.contains_key(k) && k != position_id
                    ==> final(self).positions@[k] == old(self).positions@[k],
            ({
                let position = final(self).positions@[position_id];
                &&& position.owner == owner
                &&& position.collateral_token@ == collateral_token@
                &&& position.collateral_amount == collateral_amount
                &&& position.borrowed_token@ == borrowed_token@
                &&& position.borrowed_amount == borrowed_amount
            }),
    {
        let position = UserPosition {
            owner,
            collateral_token: collateral_token.to_owned(),
            collateral_amount,
            borrowed_token: borrowed_token.to_owned(),
            borrowed_amount,
        };
        let position_id = self.next_position_id;
        self.next_position_id += 1;
        self.positions.insert(position_id, position);
        assert(self.positions@.dom() =~= old(self).positions@.dom().insert(position_id));
        position_id
    }
}

} // verus!
