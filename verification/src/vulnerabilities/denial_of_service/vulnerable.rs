//! An auction that keeps every bid and refunds everybody in one go.

use crate::collections::address_map::{same_address, Address};
use crate::vulnerabilities::refused;
use vstd::prelude::*;

verus! {

pub struct Auction {
    pub highest_bidder: Option<Address>,
    pub highest_bid: u64,
    pub bidders: Vec<Address>,
    pub bids: Vec<(u64, Address)>,
    pub ended: bool,
}

/// The one bidder whose refund fails: the address made of the byte `0xaa`
/// thirty-two times.
pub open spec fn rejects_refund(bidder: Address) -> bool {
    forall|i: int| 0 <= i < 32 ==> bidder[i] == 0xaa
}

/// Tells whether the refund of `bidder` fails.
pub fn refund_fails(bidder: &Address) -> (fails: bool)
    ensures
        fails == rejects_refund(*bidder),
{
    let mut i: usize = 0;
    while i < 32
        invariant
            i <= 32,
            forall|j: int| 0 <= j < i ==> bidder[j] == 0xaa,
        decreases 32 - i,
    {
        if bidder[i] != 0xaa {
            return false;
        }
        i += 1;
    }
    true
}

/// Whether one of the first `upto` bidders is due a refund that fails: a
/// bidder other than the highest one whose refund is rejected.
pub open spec fn refund_blocked(
    bidders: Seq<Address>,
    highest_bidder: Option<Address>,
    upto: int,
) -> bool {
    exists|i: int|
        0 <= i < upto && Some(#[trigger] bidders[i]) != highest_bidder && rejects_refund(bidders[i])
}

impl Auction {
    pub fn new() -> (auction: Self)
        ensures
            auction.highest_bidder is None,
            auction.highest_bid == 0,
            auction.bidders@ == Seq::<Address>::empty(),
            auction.bids@ == Seq::<(u64, Address)>::empty(),
            !auction.ended,
    {
        Self {
            highest_bidder: None,
            highest_bid: 0,
            bidders: Vec::new(),
            bids: Vec::new(),
            ended: false,
        }
    }

    /// Takes a bid above the highest one. Every bid is kept, and the bidder
    /// is listed once more with each bid, so both lists grow without end.
    pub fn place_bid(&mut self, bidder: Address, amount: u64) -> (res: Result<(), &'static str>)
        ensures
            old(self).ended ==> refused(res, "Auction already ended"),
            !old(self).ended && amount <= old(self).highest_bid ==> refused(res, "Bid too low"),
            res is Err ==> *final(self) == *old(self),
            !old(self).ended && amount > old(self).highest_bid ==> {
                &&& res == Ok::<(), &'static str>(())
                &&& final(self).highest_bidder == Some(bidder)
                &&& final(self).highest_bid == amount
                &&& final(self).bids@ == old(self).bids@.push((amount, bidder))
                &&& final(self).bidders@ == old(self).bidders@.push(bidder)
                &&& !final(self).ended
            },
    {
        if self.ended {
            return Err("Auction already ended");
        }
        if amount <= self.highest_bid {
            return Err("Bid too low");
        }
        self.highest_bidder = Some(bidder);
        self.highest_bid = amount;
        self.bids.push((amount, bidder));
        self.bidders.push(bidder);
        Ok(())
    }

    /// Ends the auction and refunds every listed bidder but the highest, in
    /// one go. The auction is marked as ended before the refunds start, and
    /// the first refund that fails stops the call with an error.
    pub fn end_auction(&mut self) -> (res: Result<(), &'static str>)
        ensures
            final(self).highest_bidder == old(self).highest_bidder,
            final(self).highest_bid == old(self).highest_bid,
            final(self).bidders == old(self).bidders,
            final(self).bids == old(self).bids,
            old(self).ended ==> refused(res, "Auction already ended") && final(self).ended,
            !old(self).ended ==> final(self).ended,
            !old(self).ended && refund_blocked(
                old(self).bidders@,
                old(self).highest_bidder,
                old(self).bidders@.len() as int,
            ) ==> refused(res, "Refund failed"),
            !old(self).ended && !refund_blocked(
                old(self).bidders@,
                old(self).highest_bidder,
                old(self).bidders@.len() as int,
            ) ==> res == Ok::<(), &'static str>(()),
    {
        if self.ended {
            return Err("Auction already ended");
        }
        self.ended = true;
        let mut i: usize = 0;
        while i < self.bidders.len()
            invariant
                i <= self.bidders.len(),
                !old(self).ended,
                self.ended,
                self.highest_bidder == old(self).highest_bidder,
                self.highest_bid == old(self).highest_bid,
                self.bidders == old(self).bidders,
                self.bids == old(self).bids,
                !refund_blocked(self.bidders@, self.highest_bidder, i as int),
            decreases self.bidders.len() - i,
        {
            let bidder = self.bidders[i];
            let is_highest = match self.highest_bidder {
                Some(highest) => same_address(&highest, &bidder),
                None => false,
            };
            if !is_highest {
                match self.refund_bidder(bidder) {
                    Ok(()) => {},
                    Err(reason) => {
                        assert(refund_blocked(
                            self.bidders@,
                            self.highest_bidder,
                            self.bidders@.len() as int,
                        )) by {
                            assert(Some(self.bidders@[i as int]) != self.highest_bidder);
                        }
                        return Err(reason);
                    },
                }
            }
            i += 1;
        }
        Ok(())
    }

    /// Stands for the payment of one refund.
    fn refund_bidder(&self, bidder: Address) -> (res: Result<(), &'static str>)
        ensures
            rejects_refund(bidder) ==> refused(res, "Refund failed"),
            !rejects_refund(bidder) ==> res == Ok::<(), &'static str>(()),
    {
        if refund_fails(&bidder) {
            return Err("Refund failed");
        }
        Ok(())
    }
}

} // verus!
