//! A lending protocol that trusts the last price of a single oracle.

use crate::collections::address_map::{Address, AddressMap};
use crate::vulnerabilities::refused;
use vstd::prelude::*;

verus! {

#[derive(Debug, Clone)]
pub struct PriceOracle {
    pub latest_price: u64,
    pub last_update_time: u64,
}

impl PriceOracle {
    pub fn new(initial_price: u64) -> (oracle: Self)
        ensures
            oracle.latest_price == initial_price,
            oracle.last_update_time == 0,
    {
        Self { latest_price: initial_price, last_update_time: 0 }
    }

    /// The latest price, however old it is.
    pub fn get_price(&self) -> (price: u64)
        ensures
            price == self.latest_price,
    {
        self.latest_price
    }

    /// Takes a new price as it comes.
    pub fn update_price(&mut self, new_price: u64, timestamp: u64)
        ensures
            final(self).latest_price == new_price,
            final(self).last_update_time == timestamp,
    {
        self.latest_price = new_price;
        self.last_update_time = timestamp;
    }
}

#[derive(Debug, Clone)]
pub struct LendingPosition {
    pub owner: Address,
    pub collateral_amount: u64,
    pub loan_amount: u64,
}

pub struct LendingProtocol {
    pub oracle: PriceOracle,
    pub positions: AddressMap<LendingPosition>,
    pub current_time: u64,
}

/// A position can be liquidated where its collateral, valued at `price`, is
/// worth less than 110% of the loan, the percentage rounded down.
pub open spec fn is_undercollateralized(position: LendingPosition, price: u64) -> bool {
    position.collateral_amount * price < position.loan_amount * 110 / 100
}

/// Whether the two products of the liquidation rule fit in 64 bits.
pub open spec fn values_fit(position: LendingPosition, price: u64) -> bool {
    position.collateral_amount * price <= u64::MAX && position.loan_amount * 110 <= u64::MAX
}

impl LendingProtocol {
    pub fn new(initial_price: u64) -> (protocol: Self)
        ensures
            protocol.oracle.latest_price == initial_price,
            protocol.oracle.last_update_time == 0,
            protocol.positions@ == Map::<Address, LendingPosition>::empty(),
            protocol.current_time == 0,
    {
        Self {
            oracle: PriceOracle::new(initial_price),
            positions: AddressMap::new(),
            current_time: 0,
        }
    }

    /// Liquidates a position that is undercollateralized at the oracle's
    /// latest price, by taking it out of the books. The value of the
    /// collateral and 110 times the loan have to fit in 64 bits.
    pub fn liquidate_position(&mut self, position_id: Address) -> (res: Result<(), &'static str>)
        requires
            old(self).positions@.contains_key(position_id) ==> values_fit(
                old(self).positions@[position_id],
                old(self).oracle.latest_price,
            ),
        ensures
            res is Err ==> final(self).positions.order() == old(self).positions.order(),
            res is Ok
                ==> final(self).positions.order()
                    == old(self).positions.order().remove_value(position_id),
            final(self).oracle == old(self).oracle,
            final(self).current_time == old(self).current_time,
            !old(self).positions@.contains_key(position_id) ==> refused(res, "Position not found"),
            old(self).positions@.contains_key(position_id) && !is_undercollateralized(
                old(self).positions@[position_id],
                old(self).oracle.latest_price,
            ) ==> refused(res, "Position is not eligible for liquidation"),
            res is Err ==> final(self).positions@ == old(self).positions@,
            old(self).positions@.contains_key(position_id) && is_undercollateralized(
                old(self).positions@[position_id],
                old(self).oracle.latest_price,
            )
                ==> res == Ok::<(), &'static str>(())
                    && final(self).positions@ == old(self).positions@.remove(position_id),
    {
        let position = match self.positions.get(&position_id) {
            Some(position) => position,
            None => return Err("Position not found"),
        };
        let token_price = self.oracle.get_price();
        let collateral_value = position.collateral_amount * token_price;
        let loan_value = position.loan_amount;
        if collateral_value < loan_value * 110 / 100 {
            self.positions.remove(&position_id);
            return Ok(());
        } else {
            return Err("Position is not eligible for liquidation");
        }
    }

    /// Moves the clock one step and hands the oracle a new price. The new
    /// time has to fit in 64 bits.
    pub fn update_oracle_price(&mut self, new_price: u64)
        requires
            old(self).current_time < u64::MAX,
        ensures
            final(self).current_time == old(self).current_time + 1,
            final(self).oracle.latest_price == new_price,
            final(self).oracle.last_update_time == old(self).current_time + 1,
            final(self).positions == old(self).positions,
    {
        self.current_time += 1;
        self.oracle.update_price(new_price, self.current_time);
    }
}

} // verus!
