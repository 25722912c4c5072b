//! A lending protocol that checks the age of its prices, dampens sudden
//! moves, keeps a backup oracle and values collateral at the lower of the
//! latest price and the average of the last hour.

use crate::collections::address_map::{Address, AddressMap};
use crate::vulnerabilities::refused;
use vstd::prelude::*;

verus! {

/// A price older than this many seconds is stale.
pub const MAX_AGE: u64 = 300;

/// The largest move of the price in one update, in percent of the last
/// price.
pub const MAX_PRICE_CHANGE_PERCENTAGE: u64 = 20;

/// Prices older than this many seconds leave the history.
pub const HISTORY_RETENTION: u64 = 86400;

/// The period of the average price used in liquidations, in seconds.
pub const TWAP_PERIOD: u64 = 3600;

#[derive(Debug, Clone)]
pub struct PriceOracle {
    pub latest_price: u64,
    /// Pairs of time and price, oldest first.
    pub historical_prices: Vec<(u64, u64)>,
    pub last_update_time: u64,
}

/// `a - b`, or 0 where `b` is the larger.
pub open spec fn minus_or_zero(a: u64, b: u64) -> u64 {
    if a >= b {
        (a - b) as u64
    } else {
        0
    }
}

/// Sum of the prices among the first `upto` entries that are not older than
/// `min_time`.
pub open spec fn recent_sum(history: Seq<(u64, u64)>, min_time: u64, upto: int) -> nat
    decreases upto,
{
    if upto <= 0 {
        0
    } else if history[upto - 1].0 >= min_time {
        recent_sum(history, min_time, upto - 1) + history[upto - 1].1 as nat
    } else {
        recent_sum(history, min_time, upto - 1)
    }
}

/// Number of entries among the first `upto` that are not older than
/// `min_time`.
pub open spec fn recent_count(history: Seq<(u64, u64)>, min_time: u64, upto: int) -> nat
    decreases upto,
{
    if upto <= 0 {
        0
    } else if history[upto - 1].0 >= min_time {
        recent_count(history, min_time, upto - 1) + 1
    } else {
        recent_count(history, min_time, upto - 1)
    }
}

/// The entries among the first `upto` that are not older than `min_time`,
/// in their order.
pub open spec fn kept_since(history: Seq<(u64, u64)>, min_time: u64, upto: int) -> Seq<(u64, u64)>
    decreases upto,
{
    if upto <= 0 {
        Seq::empty()
    } else if history[upto - 1].0 >= min_time {
        kept_since(history, min_time, upto - 1).push(history[upto - 1])
    } else {
        kept_since(history, min_time, upto - 1)
    }
}

/// The entries of the history that are not older than `min_time`, in their
/// order.
pub open spec fn recent_entries(history: Seq<(u64, u64)>, min_time: u64) -> Seq<(u64, u64)> {
    kept_since(history, min_time, history.len() as int)
}

/// The move from `last_price` to `new_price`, in percent of the last price,
/// rounded down.
pub open spec fn change_percent(last_price: u64, new_price: u64) -> int {
    if new_price > last_price {
        (new_price - last_price) * 100 / (last_price as int)
    } else {
        (last_price - new_price) * 100 / (last_price as int)
    }
}

/// The price that is taken up after `last_price` when `new_price` comes in:
/// the new price itself, or the last price moved by a fifth of itself
/// towards the new one where the move would be larger than that.
pub open spec fn dampened(last_price: u64, new_price: u64) -> int {
    if change_percent(last_price, new_price) > MAX_PRICE_CHANGE_PERCENTAGE {
        if new_price > last_price {
            last_price + last_price * MAX_PRICE_CHANGE_PERCENTAGE / 100
        } else {
            minus_or_zero(last_price, (last_price * MAX_PRICE_CHANGE_PERCENTAGE / 100) as u64) as int
        }
    } else {
        new_price as int
    }
}

impl PriceOracle {
    /// Whether the latest price is stale at time `now`.
    pub open spec fn is_stale(&self, now: u64) -> bool {
        now - self.last_update_time > MAX_AGE
    }

    /// The average of the prices of the last `period` seconds before `now`,
    /// rounded down, where the history holds any.
    pub open spec fn twap(&self, period: u64, now: u64) -> Option<int> {
        let min_time = minus_or_zero(now, period);
        let n = self.historical_prices@.len() as int;
        if recent_count(self.historical_prices@, min_time, n) == 0 {
            None
        } else {
            Some(
                recent_sum(self.historical_prices@, min_time, n) as int / recent_count(
                    self.historical_prices@,
                    min_time,
                    n,
                ) as int,
            )
        }
    }

    /// Whether the sum behind `twap` fits in 64 bits.
    pub open spec fn twap_fits(&self, period: u64, now: u64) -> bool {
        recent_sum(
            self.historical_prices@,
            minus_or_zero(now, period),
            self.historical_prices@.len() as int,
        ) <= u64::MAX
    }

    /// The price that the oracle takes up when `new_price` comes in.
    pub open spec fn next_price(&self, new_price: u64) -> int {
        if self.historical_prices@.len() > 0 {
            dampened(self.historical_prices@.last().1, new_price)
        } else {
            new_price as int
        }
    }

    /// Whether an update with `new_price` can be worked out in 64 bits: the
    /// last price is not zero, and neither a hundred times the move nor
    /// twenty times the last price is too large.
    pub open spec fn update_fits(&self, new_price: u64) -> bool {
        self.historical_prices@.len() > 0 ==> {
            let last_price = self.historical_prices@.last().1;
            &&& last_price > 0
            &&& (new_price - last_price) * 100 <= u64::MAX
            &&& (last_price - new_price) * 100 <= u64::MAX
            &&& last_price * MAX_PRICE_CHANGE_PERCENTAGE <= u64::MAX
        }
    }

    pub fn new(initial_price: u64) -> (oracle: Self)
        ensures
            oracle.latest_price == initial_price,
            oracle.historical_prices@ == seq![(0u64, initial_price)],
            oracle.last_update_time == 0,
    {
        let mut historical_prices: Vec<(u64, u64)> = Vec::new();
        historical_prices.push((0, initial_price));
        assert(historical_prices@ =~= seq![(0u64, initial_price)]);
        Self { latest_price: initial_price, historical_prices, last_update_time: 0 }
    }

    /// Get current price with staleness check. The time `current_time` must
    /// not lie before the last update.
    pub fn get_price(&self, current_time: u64) -> (res: Result<u64, &'static str>)
        requires
            current_time >= self.last_update_time,
        ensures
            self.is_stale(current_time) ==> refused(res, "Oracle data is stale"),
            !self.is_stale(current_time) ==> res == Ok::<u64, &'static str>(self.latest_price),
    {
        if current_time - self.last_update_time > MAX_AGE {
            return Err("Oracle data is stale");
        }
        Ok(self.latest_price)
    }

    /// Get the average of the prices of the last `period` seconds. The sum
    /// of those prices has to fit in 64 bits.
    pub fn get_twap(&self, period: u64, current_time: u64) -> (res: Result<u64, &'static str>)
        requires
            self.twap_fits(period, current_time),
        ensures
            self.twap(period, current_time) is None ==> refused(
                res,
                "Insufficient historical price data",
            ),
            self.twap(period, current_time) matches Some(average) ==> res == Ok::<
                u64,
                &'static str,
            >(average as u64) && average <= u64::MAX,
    {
        let min_time = current_time.saturating_sub(period);
        let mut sum: u64 = 0;
        let mut count: u64 = 0;
        let mut i: usize = 0;
        let ghost n = self.historical_prices@.len() as int;
        while i < self.historical_prices.len()
            invariant
                i <= self.historical_prices.len(),
                n == self.historical_prices@.len(),
                min_time == minus_or_zero(current_time, period),
                recent_sum(self.historical_prices@, min_time, n) <= u64::MAX,
                sum == recent_sum(self.historical_prices@, min_time, i as int),
                count == recent_count(self.historical_prices@, min_time, i as int),
                count <= i,
            decreases self.historical_prices.len() - i,
        {
            proof {
                lemma_recent_sum_grows(self.historical_prices@, min_time, i + 1, n);
            }
            if self.historical_prices[i].0 >= min_time {
                sum = sum + self.historical_prices[i].1;
                count = count + 1;
            }
            i += 1;
        }
        if count == 0 {
            return Err("Insufficient historical price data");
        }
        proof {
            vstd::arithmetic::div_mod::lemma_div_is_ordered_by_denominator(
                sum as int,
                1,
                count as int,
            );
            vstd::arithmetic::div_mod::lemma_div_basics(sum as int);
        }
        Ok(sum / count)
    }

    /// Takes up a new price, dampened where it moves too far from the last
    /// one, writes it into the history and drops the entries that are
    /// older than the retention time.
    pub fn update_price(&mut self, new_price: u64, timestamp: u64)
        requires
            old(self).update_fits(new_price),
        ensures
            final(self).latest_price == old(self).next_price(new_price),
            final(self).last_update_time == timestamp,
            final(self).historical_prices@ == recent_entries(
                old(self).historical_prices@.push((timestamp, final(self).latest_price)),
                minus_or_zero(timestamp, HISTORY_RETENTION),
            ),
    {
        if self.historical_prices.len() > 0 {
            let last_price = self.historical_prices[self.historical_prices.len() - 1].1;
            let change = if new_price > last_price {
                (new_price - last_price) * 100 / last_price
            } else {
                (last_price - new_price) * 100 / last_price
            };
            if change > MAX_PRICE_CHANGE_PERCENTAGE {
                let max_change = last_price * MAX_PRICE_CHANGE_PERCENTAGE / 100;
                if new_price > last_price {
                    self.latest_price = last_price + max_change;
                } else {
                    self.latest_price = last_price.saturating_sub(max_change);
                }
            } else {
                self.latest_price = new_price;
            }
        } else {
            self.latest_price = new_price;
        }
        self.historical_prices.push((timestamp, self.latest_price));
        self.last_update_time = timestamp;
        let min_time = timestamp.saturating_sub(HISTORY_RETENTION);
        let mut kept: Vec<(u64, u64)> = Vec::new();
        let mut i: usize = 0;
        while i < self.historical_prices.len()
            invariant
                i <= self.historical_prices.len(),
                kept@ == kept_since(self.historical_prices@, min_time, i as int),
            decreases self.historical_prices.len() - i,
        {
            if self.historical_prices[i].0 >= min_time {
                kept.push(self.historical_prices[i]);
            }
            i += 1;
        }
        assert(kept@ == recent_entries(self.historical_prices@, min_time));
        self.historical_prices = kept;
    }
}

/// The sum over a shorter part of the history is not larger.
pub proof fn lemma_recent_sum_grows(history: Seq<(u64, u64)>, min_time: u64, upto: int, n: int)
    requires
        upto <= n,
    ensures
        recent_sum(history, min_time, upto) <= recent_sum(history, min_time, n),
    decreases n - upto,
{
    if upto < n {
        lemma_recent_sum_grows(history, min_time, upto, n - 1);
    }
}

#[derive(Debug, Clone)]
pub struct LendingPosition {
    pub owner: Address,
    pub collateral_amount: u64,
    pub loan_amount: u64,
}

pub struct LendingProtocol {
    pub primary_oracle: PriceOracle,
    pub backup_oracle: PriceOracle,
    pub positions: AddressMap<LendingPosition>,
    pub current_time: u64,
}

/// A position can be liquidated where its collateral, valued at `price`, is
/// worth less than 110% of the loan, the percentage rounded down.
pub open spec fn is_undercollateralized(position: LendingPosition, price: int) -> bool {
    position.collateral_amount * price < position.loan_amount * 110 / 100
}

impl LendingProtocol {
    /// The latest price that is not stale: the primary oracle's, or else
    /// the backup oracle's, or none.
    pub open spec fn fresh_price(&self) -> Option<u64> {
        if !self.primary_oracle.is_stale(self.current_time) {
            Some(self.primary_oracle.latest_price)
        } else if !self.backup_oracle.is_stale(self.current_time) {
            Some(self.backup_oracle.latest_price)
        } else {
            None
        }
    }

    /// The price at which collateral is valued: the lower of the fresh
    /// price and the primary oracle's average of the last hour, or the
    /// fresh price alone where there is no average.
    pub open spec fn valuation_price(&self) -> int {
        let fresh = self.fresh_price()->0 as int;
        match self.primary_oracle.twap(TWAP_PERIOD, self.current_time) {
            Some(average) => if fresh <= average {
                fresh
            } else {
                average
            },
            None => fresh,
        }
    }

    /// What a liquidation needs in order to be worked out in 64 bits, and
    /// with the clock not behind the oracles.
    pub open spec fn liquidation_fits(&self, position_id: Address) -> bool {
        self.positions@.contains_key(position_id) ==> {
            &&& self.current_time >= self.primary_oracle.last_update_time
            &&& self.current_time >= self.backup_oracle.last_update_time
            &&& self.primary_oracle.twap_fits(TWAP_PERIOD, self.current_time)
            &&& self.fresh_price() is Some ==> {
                &&& self.positions@[position_id].collateral_amount * self.valuation_price()
                    <= u64::MAX
                &&& self.positions@[position_id].loan_amount * 110 <= u64::MAX
            }
        }
    }

    pub fn new(initial_price: u64) -> (protocol: Self)
        ensures
            protocol.primary_oracle.latest_price == initial_price,
            protocol.primary_oracle.historical_prices@ == seq![(0u64, initial_price)],
            protocol.primary_oracle.last_update_time == 0,
            protocol.backup_oracle.latest_price == initial_price,
            protocol.backup_oracle.historical_prices@ == seq![(0u64, initial_price)],
            protocol.backup_oracle.last_update_time == 0,
            protocol.positions@ == Map::<Address, LendingPosition>::empty(),
            protocol.current_time == 0,
    {
        Self {
            primary_oracle: PriceOracle::new(initial_price),
            backup_oracle: PriceOracle::new(initial_price),
            positions: AddressMap::new(),
            current_time: 0,
        }
    }

    /// Liquidates a position that is undercollateralized at the valuation
    /// price, by taking it out of the books.
    pub fn liquidate_position(&mut self, position_id: Address) -> (res: Result<(), &'static str>)
        requires
            old(self).liquidation_fits(position_id),
        ensures
            res is Err ==> final(self).positions.order() == old(self).positions.order(),
            res is Ok
                ==> final(self).positions.order()
                    == old(self).positions.order().remove_value(position_id),
            final(self).primary_oracle == old(self).primary_oracle,
            final(self).backup_oracle == old(self).backup_oracle,
            final(self).current_time == old(self).current_time,
            !old(self).positions@.contains_key(position_id) ==> refused(res, "Position not found"),
            old(self).positions@.contains_key(position_id) && old(self).fresh_price() is None
                ==> refused(res, "All oracle data is stale"),
            old(self).positions@.contains_key(position_id) && old(self).fresh_price() is Some
                && !is_undercollateralized(
                old(self).positions@[position_id],
                old(self).valuation_price(),
            ) ==> refused(res, "Position is not eligible for liquidation"),
            res is Err ==> final(self).positions@ == old(self).positions@,
            old(self).positions@.contains_key(position_id) && old(self).fresh_price() is Some
                && is_undercollateralized(
                old(self).positions@[position_id],
                old(self).valuation_price(),
            )
                ==> res == Ok::<(), &'static str>(())
                    && final(self).positions@ == old(self).positions@.remove(position_id),
    {
        let position = match self.positions.get(&position_id) {
            Some(position) => position,
            None => return Err("Position not found"),
        };
        let primary_price = match self.primary_oracle.get_price(self.current_time) {
            Ok(price) => price,
            Err(_) => {
                match self.backup_oracle.get_price(self.current_time) {
                    Ok(price) => price,
                    Err(_) => return Err("All oracle data is stale"),
                }
            },
        };
        let twap_price = match self.primary_oracle.get_twap(TWAP_PERIOD, self.current_time) {
            Ok(price) => price,
            Err(_) => primary_price,
        };
        let token_price = if primary_price <= twap_price {
            primary_price
        } else {
            twap_price
        };
        let collateral_value = position.collateral_amount * token_price;
        let loan_value = position.loan_amount;
        if collateral_value < loan_value * 110 / 100 {
            self.positions.remove(&position_id);
            return Ok(());
        } else {
            return Err("Position is not eligible for liquidation");
        }
    }

    /// Moves the clock one step and hands the primary oracle a new price.
    pub fn update_primary_oracle_price(&mut self, new_price: u64)
        requires
            old(self).current_time < u64::MAX,
            old(self).primary_oracle.update_fits(new_price),
        ensures
            final(self).current_time == old(self).current_time + 1,
            final(self).backup_oracle == old(self).backup_oracle,
            final(self).positions == old(self).positions,
            final(self).primary_oracle.latest_price == old(self).primary_oracle.next_price(
                new_price,
            ),
            final(self).primary_oracle.last_update_time == final(self).current_time,
            final(self).primary_oracle.historical_prices@ == recent_entries(
                old(self).primary_oracle.historical_prices@.push(
                    (final(self).current_time, final(self).primary_oracle.latest_price),
                ),
                minus_or_zero(final(self).current_time, HISTORY_RETENTION),
            ),
    {
        self.current_time += 1;
        self.primary_oracle.update_price(new_price, self.current_time);
    }

    /// Moves the clock one step and hands the backup oracle a new price.
    pub fn update_backup_oracle_price(&mut self, new_price: u64)
        requires
            old(self).current_time < u64::MAX,
            old(self).backup_oracle.update_fits(new_price),
        ensures
            final(self).current_time == old(self).current_time + 1,
            final(self).primary_oracle == old(self).primary_oracle,
            final(self).positions == old(self).positions,
            final(self).backup_oracle.latest_price == old(self).backup_oracle.next_price(new_price),
            final(self).backup_oracle.last_update_time == final(self).current_time,
            final(self).backup_oracle.historical_prices@ == recent_entries(
                old(self).backup_oracle.historical_prices@.push(
                    (final(self).current_time, final(self).backup_oracle.latest_price),
                ),
                minus_or_zero(final(self).current_time, HISTORY_RETENTION),
            ),
    {
        self.current_time += 1;
        self.backup_oracle.update_price(new_price, self.current_time);
    }
}

} // verus!
