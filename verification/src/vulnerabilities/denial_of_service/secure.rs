//! An auction that keeps one entry for each bidder, limits their number,
//! and lets bidders fetch their refunds themselves or in bounded batches.

use crate::collections::address_map::{same_address, zero_address, Address, AddressMap};
use crate::vulnerabilities::refused;
use vstd::prelude::*;

verus! {

pub struct Auction {
    pub highest_bidder: Option<Address>,
    pub highest_bid: u64,
    pub bidder_amounts: AddressMap<u64>,
    pub ended: bool,
    pub max_bidders: usize,
}

/// The bidder that a batch of refunds leaves out: the highest bidder, or the
/// address of thirty-two zero bytes where nobody has bid.
pub open spec fn left_out(highest_bidder: Option<Address>) -> Address {
    match highest_bidder {
        Some(bidder) => bidder,
        None => zero_address(),
    }
}

/// The bidders of one batch: of the first `upto` bidders in `order`, the
/// first `max` that are not `skip`.
pub open spec fn refund_batch(order: Seq<Address>, skip: Address, max: nat, upto: int) -> Seq<
    Address,
>
    decreases upto,
{
    if upto <= 0 {
        Seq::empty()
    } else {
        let before = refund_batch(order, skip, max, upto - 1);
        if order[upto - 1] != skip && before.len() < max {
            before.push(order[upto - 1])
        } else {
            before
        }
    }
}

/// `order` with the first `upto` bidders of `batch` taken out.
pub open spec fn without_batch(order: Seq<Address>, batch: Seq<Address>, upto: int) -> Seq<Address>
    decreases upto,
{
    if upto <= 0 {
        order
    } else {
        without_batch(order, batch, upto - 1).remove_value(batch[upto - 1])
    }
}

/// `amounts` with the first `upto` bidders of `batch` taken out.
pub open spec fn without_entries(amounts: Map<Address, u64>, batch: Seq<Address>, upto: int) -> Map<
    Address,
    u64,
>
    decreases upto,
{
    if upto <= 0 {
        amounts
    } else {
        without_entries(amounts, batch, upto - 1).remove(batch[upto - 1])
    }
}

impl Auction {
    /// Whether a bid of `amount` by `bidder` is taken: the auction is open,
    /// the bid is above the highest one, and the bidder is known or there
    /// is room for one more.
    pub open spec fn takes_bid(&self, bidder: Address, amount: u64) -> bool {
        &&& !self.ended
        &&& amount > self.highest_bid
        &&& (self.bidder_amounts@.contains_key(bidder) || self.bidder_amounts@.len()
            < self.max_bidders)
    }

    pub fn new(max_bidders: usize) -> (auction: Self)
        ensures
            auction.highest_bidder is None,
            auction.highest_bid == 0,
            auction.bidder_amounts@ == Map::<Address, u64>::empty(),
            auction.bidder_amounts.order() == Seq::<Address>::empty(),
            !auction.ended,
            auction.max_bidders == max_bidders,
    {
        Self {
            highest_bidder: None,
            highest_bid: 0,
            bidder_amounts: AddressMap::new(),
            ended: false,
            max_bidders,
        }
    }

    /// Takes a bid above the highest one. Each bidder has one entry, which
    /// holds its last bid, and a new bidder is refused once `max_bidders`
    /// bidders have an entry.
    pub fn place_bid(&mut self, bidder: Address, amount: u64) -> (res: Result<(), &'static str>)
        ensures
            final(self).ended == old(self).ended,
            final(self).max_bidders == old(self).max_bidders,
            old(self).ended ==> refused(res, "Auction already ended"),
            !old(self).ended && amount <= old(self).highest_bid ==> refused(res, "Bid too low"),
            !old(self).ended && amount > old(self).highest_bid && !old(self).takes_bid(
                bidder,
                amount,
            ) ==> refused(res, "Maximum number of bidders reached"),
            res is Err ==> {
                &&& final(self).highest_bidder == old(self).highest_bidder
                &&& final(self).highest_bid == old(self).highest_bid
                &&& final(self).bidder_amounts@ == old(self).bidder_amounts@
                &&& final(self).bidder_amounts.order() == old(self).bidder_amounts.order()
            },
            old(self).takes_bid(bidder, amount) ==> {
                &&& res == Ok::<(), &'static str>(())
                &&& final(self).highest_bidder == Some(bidder)
                &&& final(self).highest_bid == amount
                &&& final(self).bidder_amounts@ == old(self).bidder_amounts@.insert(bidder, amount)
                &&& final(self).bidder_amounts.order()
                    == if old(self).bidder_amounts@.contains_key(bidder) {
                    old(self).bidder_amounts.order()
                } else {
                    old(self).bidder_amounts.order().push(bidder)
                }
            },
    {
        if self.ended {
            return Err("Auction already ended");
        }
        if amount <= self.highest_bid {
            return Err("Bid too low");
        }
        if !self.bidder_amounts.contains_key(&bidder) && self.bidder_amounts.len()
            >= self.max_bidders {
            return Err("Maximum number of bidders reached");
        }
        self.highest_bidder = Some(bidder);
        self.highest_bid = amount;
        self.bidder_amounts.insert(bidder, amount);
        Ok(())
    }

    /// Ends the auction. No refund is paid here: bidders fetch theirs.
    pub fn end_auction(&mut self) -> (res: Result<(), &'static str>)
        ensures
            final(self).highest_bidder == old(self).highest_bidder,
            final(self).highest_bid == old(self).highest_bid,
            final(self).bidder_amounts == old(self).bidder_amounts,
            final(self).max_bidders == old(self).max_bidders,
            final(self).ended,
            old(self).ended ==> refused(res, "Auction already ended"),
            !old(self).ended ==> res == Ok::<(), &'static str>(()),
    {
        if self.ended {
            return Err("Auction already ended");
        }
        self.ended = true;
        Ok(())
    }

    /// Pays the refund of one bidder other than the highest, once the
    /// auction has ended, and takes the bidder's entry out.
    pub fn claim_refund(&mut self, bidder: Address) -> (res: Result<(), &'static str>)
        ensures
            final(self).highest_bidder == old(self).highest_bidder,
            final(self).highest_bid == old(self).highest_bid,
            final(self).max_bidders == old(self).max_bidders,
            final(self).ended == old(self).ended,
            !old(self).ended ==> refused(res, "Auction not ended yet"),
            old(self).ended && Some(bidder) == old(self).highest_bidder ==> refused(
                res,
                "Highest bidder cannot claim refund",
            ),
            old(self).ended && Some(bidder) != old(self).highest_bidder
                && !old(self).bidder_amounts@.contains_key(bidder)
                    ==> refused(res, "No bid found for this bidder"),
            res is Err
                ==> final(self).bidder_amounts@ == old(self).bidder_amounts@
                    && final(self).bidder_amounts.order() == old(self).bidder_amounts.order(),
            old(self).ended && Some(bidder) != old(self).highest_bidder
                && old(self).bidder_amounts@.contains_key(bidder) ==> {
                &&& res == Ok::<(), &'static str>(())
                &&& final(self).bidder_amounts@ == old(self).bidder_amounts@.remove(bidder)
                &&& final(self).bidder_amounts.order()
                    == old(self).bidder_amounts.order().remove_value(bidder)
            },
    {
        if !self.ended {
            return Err("Auction not ended yet");
        }
        let is_highest = match self.highest_bidder {
            Some(highest) => same_address(&highest, &bidder),
            None => false,
        };
        if is_highest {
            return Err("Highest bidder cannot claim refund");
        }
        if !self.bidder_amounts.contains_key(&bidder) {
            return Err("No bid found for this bidder");
        }
        self.bidder_amounts.remove(&bidder);
        Ok(())
    }

    /// Pays up to `max_refunds` refunds, to the bidders that entered first,
    /// and takes their entries out. The highest bidder is left out. A
    /// refund that fails does not stop the batch. Returns the number of
    /// entries taken out.
    pub fn process_refund_batch(&mut self, max_refunds: usize) -> (res: Result<usize, &'static str>)
        ensures
            final(self).highest_bidder == old(self).highest_bidder,
            final(self).highest_bid == old(self).highest_bid,
            final(self).max_bidders == old(self).max_bidders,
            final(self).ended == old(self).ended,
            !old(self).ended
                ==> refused(res, "Auction not ended yet")
                    && final(self).bidder_amounts@ == old(self).bidder_amounts@
                        && final(self).bidder_amounts.order()
                == old(self).bidder_amounts.order(),
            old(self).ended ==> ({
                let order = old(self).bidder_amounts.order();
                let batch = refund_batch(
                    order,
                    left_out(old(self).highest_bidder),
                    max_refunds as nat,
                    order.len() as int,
                );
                &&& res == Ok::<usize, &'static str>(batch.len() as usize)
                &&& batch.len() <= max_refunds
                &&& final(self).bidder_amounts@ == without_entries(
                    old(self).bidder_amounts@,
                    batch,
                    batch.len() as int,
                )
                &&& final(self).bidder_amounts.order() == without_batch(
                    order,
                    batch,
                    batch.len() as int,
                )
            }),
    {
        if !self.ended {
            return Err("Auction not ended yet");
        }
        let highest_bidder_key = match self.highest_bidder {
            Some(bidder) => bidder,
            None => [0u8; 32],
        };
        let bidders = self.bidder_amounts.keys();
        let mut batch: Vec<Address> = Vec::new();
        let mut i: usize = 0;
        while i < bidders.len()
            invariant
                i <= bidders.len(),
                batch.len() <= max_refunds,
                batch.len() <= i,
                batch@ == refund_batch(bidders@, highest_bidder_key, max_refunds as nat, i as int),
            decreases bidders.len() - i,
        {
            if !same_address(&bidders[i], &highest_bidder_key) && batch.len() < max_refunds {
                batch.push(bidders[i]);
            }
            i += 1;
        }
        let mut refunded_count: usize = 0;
        while refunded_count < batch.len()
            invariant
                refunded_count <= batch.len(),
                self.highest_bidder == old(self).highest_bidder,
                self.highest_bid == old(self).highest_bid,
                self.max_bidders == old(self).max_bidders,
                self.ended == old(self).ended,
                self.bidder_amounts@ == without_entries(
                    old(self).bidder_amounts@,
                    batch@,
                    refunded_count as int,
                ),
                self.bidder_amounts.order() == without_batch(
                    old(self).bidder_amounts.order(),
                    batch@,
                    refunded_count as int,
                ),
            decreases batch.len() - refunded_count,
        {
            let bidder = batch[refunded_count];
            let _ = self.process_single_refund(bidder);
            self.bidder_amounts.remove(&bidder);
            refunded_count += 1;
        }
        Ok(refunded_count)
    }

    /// Stands for the payment of one refund. It fails for the address made
    /// of the byte `0xaa` thirty-two times.
    fn process_single_refund(&self, bidder: Address) -> (res: Result<(), &'static str>)
        ensures
            res is Err <==> (forall|i: int| 0 <= i < 32 ==> bidder[i] == 0xaa),
    {
        let mut i: usize = 0;
        while i < 32
            invariant
                i <= 32,
                forall|j: int| 0 <= j < i ==> bidder[j] == 0xaa,
            decreases 32 - i,
        {
            if bidder[i] != 0xaa {
                return Ok(());
            }
            i += 1;
        }
        Err("Refund failed for specific bidder")
    }
}

} // verus!
