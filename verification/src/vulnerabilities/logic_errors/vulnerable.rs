//! An auction and staking platform whose rules skip steps: auctions start
//! and end at any time, and rewards can be claimed twice.

use crate::collections::address_map::{Address, AddressMap};
use crate::vulnerabilities::refused;
use std::collections::HashMap;
use vstd::prelude::*;

verus! {

broadcast use vstd::std_specs::hash::group_hash_axioms;

/// Tokens paid for each staked token and day.
pub const REWARD_RATE: u64 = 100;

/// Seconds in the day that the reward rate refers to.
pub const REWARD_PERIOD: u64 = 86400;

/// What a new platform holds for rewards.
pub const INITIAL_REWARD_POOL: u64 = 1_000_000;

#[derive(Debug, Clone, Copy, PartialEq, Eq, Structural)]
pub enum AuctionState {
    Initialized,
    Active,
    Ended,
}

#[derive(Debug, Clone)]
pub struct Auction {
    pub item_id: u64,
    pub creator: Address,
    pub start_time: u64,
    pub end_time: u64,
    pub reserve_price: u64,
    pub highest_bid: u64,
    pub highest_bidder: Option<Address>,
    pub state: AuctionState,
}

#[derive(Debug, Clone)]
pub struct StakingAccount {
    pub owner: Address,
    pub staked_amount: u64,
    pub reward_balance: u64,
    pub last_claim_time: u64,
}

pub struct AuctionPlatform {
    pub auctions: HashMap<u64, Auction>,
    pub staking_accounts: AddressMap<StakingAccount>,
    pub reward_pool: u64,
    pub current_time: u64,
}

/// The reward for `staked` tokens over `seconds`, rounded down.
pub open spec fn reward_for(staked: u64, seconds: int) -> int {
    staked * REWARD_RATE * seconds / (REWARD_PERIOD as int)
}

/// Whether a bid of `bid_amount` is high enough: above the highest bid,
/// and not below the reserve price where it is the first bid.
pub open spec fn bid_is_high_enough(auction: Auction, bid_amount: u64) -> bool {
    bid_amount > auction.highest_bid && !(auction.highest_bid == 0 && bid_amount
        < auction.reserve_price)
}

impl AuctionPlatform {
    /// What a claim of `staker` needs in order to be worked out in 64 bits,
    /// with the clock not behind the last claim.
    pub open spec fn claim_fits(&self, staker: Address) -> bool {
        self.staking_accounts@.contains_key(staker) ==> {
            let account = self.staking_accounts@[staker];
            let seconds = self.current_time - account.last_claim_time;
            &&& seconds >= 0
            &&& account.staked_amount * REWARD_RATE <= u64::MAX
            &&& account.staked_amount * REWARD_RATE * seconds <= u64::MAX
            &&& reward_for(account.staked_amount, seconds) <= self.reward_pool
                ==> account.reward_balance + reward_for(account.staked_amount, seconds)
                <= u64::MAX
        }
    }

    pub fn new() -> (platform: Self)
        ensures
            platform.auctions@ == Map::<u64, Auction>::empty(),
            platform.staking_accounts@ == Map::<Address, StakingAccount>::empty(),
            platform.reward_pool == INITIAL_REWARD_POOL,
            platform.current_time == 0,
    {
        Self {
            auctions: HashMap::new(),
            staking_accounts: AddressMap::new(),
            reward_pool: INITIAL_REWARD_POOL,
            current_time: 0,
        }
    }

    /// Makes an auction active, whatever its state and whatever the time.
    pub fn start_auction(&mut self, auction_id: u64) -> (res: Result<(), &'static str>)
        ensures
            final(self).staking_accounts == old(self).staking_accounts,
            final(self).reward_pool == old(self).reward_pool,
            final(self).current_time == old(self).current_time,
            !old(self).auctions@.contains_key(auction_id) ==> refused(res, "Auction not found")
                && final(self).auctions@ == old(self).auctions@,
            old(self).auctions@.contains_key(auction_id) ==> res == Ok::<(), &'static str>(())
                && final(self).auctions@ == old(self).auctions@.insert(
                auction_id,
                Auction { state: AuctionState::Active, ..old(self).auctions@[auction_id] },
            ),
    {
        let mut auction = match self.auctions.remove(&auction_id) {
            Some(auction) => auction,
            None => {
                assert(self.auctions@ =~= old(self).auctions@);
                return Err("Auction not found");
            },
        };
        auction.state = AuctionState::Active;
        self.auctions.insert(auction_id, auction);
        assert(self.auctions@ =~= old(self).auctions@.insert(
            auction_id,
            Auction { state: AuctionState::Active, ..old(self).auctions@[auction_id] },
        ));
        Ok(())
    }

    /// Takes a bid on an active auction. The end time of the auction is not
    /// looked at.
    pub fn place_bid(&mut self, auction_id: u64, bidder: Address, bid_amount: u64) -> (res: Result<
        (),
        &'static str,
    >)
        ensures
            final(self).staking_accounts == old(self).staking_accounts,
            final(self).reward_pool == old(self).reward_pool,
            final(self).current_time == old(self).current_time,
            !old(self).auctions@.contains_key(auction_id) ==> refused(res, "Auction not found"),
            old(self).auctions@.contains_key(auction_id) ==> ({
                let auction = old(self).auctions@[auction_id];
                &&& auction.state != AuctionState::Active ==> refused(res, "Auction is not active")
                &&& auction.state == AuctionState::Active && bid_amount <= auction.highest_bid
                    ==> refused(res, "Bid too low")
                &&& auction.state == AuctionState::Active && bid_amount > auction.highest_bid
                    && !bid_is_high_enough(auction, bid_amount) ==> refused(
                    res,
                    "Bid below reserve price",
                )
                &&& auction.state == AuctionState::Active && bid_is_high_enough(auction, bid_amount)
                    ==> res == Ok::<(), &'static str>(())
                        && final(self).auctions@ == old(self).auctions@.insert(
                    auction_id,
                    Auction { highest_bid: bid_amount, highest_bidder: Some(bidder), ..auction },
                )
            }),
            res is Err ==> final(self).auctions@ == old(self).auctions@,
    {
        let auction = match self.auctions.get(&auction_id) {
            Some(auction) => auction,
            None => return Err("Auction not found"),
        };
        if auction.state != AuctionState::Active {
            return Err("Auction is not active");
        }
        if bid_amount <= auction.highest_bid {
            return Err("Bid too low");
        }
        if auction.highest_bid == 0 && bid_amount < auction.reserve_price {
            return Err("Bid below reserve price");
        }
        let mut auction = self.auctions.remove(&auction_id).unwrap();
        auction.highest_bid = bid_amount;
        auction.highest_bidder = Some(bidder);
        self.auctions.insert(auction_id, auction);
        assert(self.auctions@ =~= old(self).auctions@.insert(
            auction_id,
            Auction {
                highest_bid: bid_amount,
                highest_bidder: Some(bidder),
                ..old(self).auctions@[auction_id]
            },
        ));
        Ok(())
    }

    /// Pays the staker the reward for the time since its last claim, at a
    /// fixed rate. The time of the last claim is not moved, so the same
    /// reward can be claimed again and again.
    pub fn claim_rewards(&mut self, staker: Address) -> (res: Result<u64, &'static str>)
        requires
            old(self).claim_fits(staker),
        ensures
            final(self).staking_accounts.order() == old(self).staking_accounts.order(),
            final(self).auctions == old(self).auctions,
            final(self).current_time == old(self).current_time,
            !old(self).staking_accounts@.contains_key(staker) ==> refused(
                res,
                "Staking account not found",
            ),
            old(self).staking_accounts@.contains_key(staker) ==> ({
                let account = old(self).staking_accounts@[staker];
                let reward = reward_for(
                    account.staked_amount,
                    old(self).current_time - account.last_claim_time,
                );
                &&& reward > old(self).reward_pool ==> refused(res, "Insufficient rewards in pool")
                &&& reward <= old(self).reward_pool ==> {
                    &&& res == Ok::<u64, &'static str>(reward as u64)
                    &&& final(self).reward_pool == old(self).reward_pool - reward
                    &&& final(self).staking_accounts@ == old(self).staking_accounts@.insert(
                        staker,
                        StakingAccount {
                            reward_balance: (account.reward_balance + reward) as u64,
                            ..account
                        },
                    )
                }
            }),
            res is Err
                ==> final(self).reward_pool == old(self).reward_pool
                    && final(self).staking_accounts@ == old(self).staking_accounts@,
    {
        let account = match self.staking_accounts.get_mut(&staker) {
            Some(account) => account,
            None => return Err("Staking account not found"),
        };
        let time_delta = self.current_time - account.last_claim_time;
        let reward_amount = account.staked_amount * REWARD_RATE * time_delta / REWARD_PERIOD;
        if reward_amount > self.reward_pool {
            return Err("Insufficient rewards in pool");
        }
        self.reward_pool -= reward_amount;
        account.reward_balance += reward_amount;
        Ok(reward_amount)
    }

    /// Ends an auction that has not ended yet, whatever the time. Without
    /// a bid the auction ends all the same, and the call reports an error.
    pub fn finalize_auction(&mut self, auction_id: u64) -> (res: Result<(), &'static str>)
        ensures
            final(self).staking_accounts == old(self).staking_accounts,
            final(self).reward_pool == old(self).reward_pool,
            final(self).current_time == old(self).current_time,
            !old(self).auctions@.contains_key(auction_id) ==> refused(res, "Auction not found")
                && final(self).auctions@ == old(self).auctions@,
            old(self).auctions@.contains_key(auction_id) ==> ({
                let auction = old(self).auctions@[auction_id];
                &&& auction.state == AuctionState::Ended ==> refused(
                    res,
                    "Auction already finalized",
                ) && final(self).auctions@ == old(self).auctions@
                &&& auction.state != AuctionState::Ended
                    ==> final(self).auctions@
                        == old(self).auctions@.insert(auction_id, Auction { state: AuctionState::Ended, ..auction })
                &&& auction.state != AuctionState::Ended && auction.highest_bidder is None
                    ==> refused(res, "No bids placed")
                &&& auction.state != AuctionState::Ended && auction.highest_bidder is Some ==> res
                    == Ok::<(), &'static str>(())
            }),
    {
        let auction = match self.auctions.get(&auction_id) {
            Some(auction) => auction,
            None => return Err("Auction not found"),
        };
        if auction.state == AuctionState::Ended {
            return Err("Auction already finalized");
        }
        let mut auction = self.auctions.remove(&auction_id).unwrap();
        let has_bid = auction.highest_bidder.is_some();
        auction.state = AuctionState::Ended;
        self.auctions.insert(auction_id, auction);
        assert(self.auctions@ =~= old(self).auctions@.insert(
            auction_id,
            Auction { state: AuctionState::Ended, ..old(self).auctions@[auction_id] },
        ));
        if !has_bid {
            return Err("No bids placed");
        }
        Ok(())
    }

    /// Moves the clock forward. The new time has to fit in 64 bits.
    pub fn advance_time(&mut self, seconds: u64)
        requires
            old(self).current_time + seconds <= u64::MAX,
        ensures
            final(self).current_time == old(self).current_time + seconds,
            final(self).auctions == old(self).auctions,
            final(self).staking_accounts == old(self).staking_accounts,
            final(self).reward_pool == old(self).reward_pool,
    {
        self.current_time += seconds;
    }
}

} // verus!
