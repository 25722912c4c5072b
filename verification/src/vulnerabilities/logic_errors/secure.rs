//! An auction and staking platform whose rules hold: auctions move through
//! their states in order and in time, and a reward is paid once.

use crate::collections::address_map::{Address, AddressMap};
use crate::vulnerabilities::refused;
use std::collections::HashMap;
use vstd::prelude::*;

verus! {

broadcast use vstd::std_specs::hash::group_hash_axioms;

/// Tokens paid for each staked token and day.
pub const REWARD_RATE: u64 = 100;

/// Seconds in the day that the reward rate refers to.
pub const REWARD_PERIOD: u64 = 86400;

/// What a new platform holds for rewards.
pub const INITIAL_REWARD_POOL: u64 = 1_000_000;

#[derive(Debug, Clone, Copy, PartialEq, Eq, Structural)]
pub enum AuctionState {
    Initialized,
    Active,
    Ended,
    Finalized,
}

#[derive(Debug, Clone)]
pub struct Auction {
    pub item_id: u64,
    pub creator: Address,
    pub start_time: u64,
    pub end_time: u64,
    pub reserve_price: u64,
    pub highest_bid: u64,
    pub highest_bidder: Option<Address>,
    pub state: AuctionState,
}

#[derive(Debug, Clone)]
pub struct StakingAccount {
    pub owner: Address,
    pub staked_amount: u64,
    pub reward_balance: u64,
    pub last_claim_time: u64,
    pub accumulated_rewards: u64,
}

pub struct AuctionPlatform {
    pub auctions: HashMap<u64, Auction>,
    pub staking_accounts: AddressMap<StakingAccount>,
    pub reward_pool: u64,
    pub current_time: u64,
    pub total_staked: u64,
}

/// The reward for `staked` tokens over `seconds`, rounded down; nothing
/// where nothing is staked on the platform.
pub open spec fn reward_for(staked: u64, seconds: int, total_staked: u64) -> int {
    if total_staked > 0 {
        staked * REWARD_RATE * seconds / (REWARD_PERIOD as int)
    } else {
        0
    }
}

/// Whether a bid of `bid_amount` is high enough: above the highest bid
/// where there is one, and not below the reserve price where there is none.
pub open spec fn bid_is_high_enough(auction: Auction, bid_amount: u64) -> bool {
    if auction.highest_bid > 0 {
        bid_amount > auction.highest_bid
    } else {
        bid_amount >= auction.reserve_price
    }
}

/// Whether an auction can be closed at time `now`: it has ended, or is
/// active and past its end time.
pub open spec fn can_finalize(auction: Auction, now: u64) -> bool {
    auction.state == AuctionState::Ended || (auction.state == AuctionState::Active && now
        >= auction.end_time)
}

impl AuctionPlatform {
    /// What a claim of `staker` needs in order to be worked out in 64 bits,
    /// with the clock not behind the last claim.
    pub open spec fn claim_fits(&self, staker: Address) -> bool {
        self.staking_accounts@.contains_key(staker) ==> {
            let account = self.staking_accounts@[staker];
            let seconds = self.current_time - account.last_claim_time;
            let reward = reward_for(account.staked_amount, seconds, self.total_staked);
            &&& seconds >= 0
            &&& seconds > 0 && self.total_staked > 0 ==> account.staked_amount * REWARD_RATE
                <= u64::MAX && account.staked_amount * REWARD_RATE * seconds <= u64::MAX
            &&& seconds > 0 && reward <= self.reward_pool ==> account.reward_balance + reward
                <= u64::MAX && account.accumulated_rewards + reward <= u64::MAX
        }
    }

    pub fn new() -> (platform: Self)
        ensures
            platform.auctions@ == Map::<u64, Auction>::empty(),
            platform.staking_accounts@ == Map::<Address, StakingAccount>::empty(),
            platform.reward_pool == INITIAL_REWARD_POOL,
            platform.current_time == 0,
            platform.total_staked == 0,
    {
        Self {
            auctions: HashMap::new(),
            staking_accounts: AddressMap::new(),
            reward_pool: INITIAL_REWARD_POOL,
            current_time: 0,
            total_staked: 0,
        }
    }

    /// Makes an auction active where it is still in its first state and the
    /// time lies between its start and its end.
    pub fn start_auction(&mut self, auction_id: u64) -> (res: Result<(), &'static str>)
        ensures
            final(self).staking_accounts == old(self).staking_accounts,
            final(self).reward_pool == old(self).reward_pool,
            final(self).current_time == old(self).current_time,
            final(self).total_staked == old(self).total_staked,
            !old(self).auctions@.contains_key(auction_id) ==> refused(res, "Auction not found"),
            old(self).auctions@.contains_key(auction_id) ==> ({
                let auction = old(self).auctions@[auction_id];
                let now = old(self).current_time;
                &&& auction.state != AuctionState::Initialized ==> refused(
                    res,
                    "Auction not in initialized state",
                )
                &&& auction.state == AuctionState::Initialized && now < auction.start_time
                    ==> refused(res, "Auction start time not reached")
                &&& auction.state == AuctionState::Initialized && now >= auction.start_time && now
                    >= auction.end_time ==> refused(res, "Auction end time already passed")
                &&& auction.state == AuctionState::Initialized && auction.start_time <= now
                    < auction.end_time
                        ==> res == Ok::<(), &'static str>(())
                            && final(self).auctions@ == old(self).auctions@.insert(
                    auction_id,
                    Auction { state: AuctionState::Active, ..auction },
                )
            }),
            res is Err ==> final(self).auctions@ == old(self).auctions@,
    {
        let auction = match self.auctions.get(&auction_id) {
            Some(auction) => auction,
            None => return Err("Auction not found"),
        };
        if auction.state != AuctionState::Initialized {
            return Err("Auction not in initialized state");
        }
        if self.current_time < auction.start_time {
            return Err("Auction start time not reached");
        }
        if self.current_time >= auction.end_time {
            return Err("Auction end time already passed");
        }
        let mut auction = self.auctions.remove(&auction_id).unwrap();
        auction.state = AuctionState::Active;
        self.auctions.insert(auction_id, auction);
        assert(self.auctions@ =~= old(self).auctions@.insert(
            auction_id,
            Auction { state: AuctionState::Active, ..old(self).auctions@[auction_id] },
        ));
        Ok(())
    }

    /// Takes a bid on an active auction before its end time. A bid that
    /// comes at or after the end time is refused and marks the auction as
    /// ended.
    pub fn place_bid(&mut self, auction_id: u64, bidder: Address, bid_amount: u64) -> (res: Result<
        (),
        &'static str,
    >)
        ensures
            final(self).staking_accounts == old(self).staking_accounts,
            final(self).reward_pool == old(self).reward_pool,
            final(self).current_time == old(self).current_time,
            final(self).total_staked == old(self).total_staked,
            !old(self).auctions@.contains_key(auction_id) ==> refused(res, "Auction not found")
                && final(self).auctions@ == old(self).auctions@,
            old(self).auctions@.contains_key(auction_id) ==> ({
                let auction = old(self).auctions@[auction_id];
                let now = old(self).current_time;
                let open = auction.state == AuctionState::Active && now < auction.end_time;
                &&& auction.state != AuctionState::Active ==> refused(res, "Auction is not active")
                    && final(self).auctions@ == old(self).auctions@
                &&& auction.state == AuctionState::Active && now >= auction.end_time ==> refused(
                    res,
                    "Auction has ended",
                ) && final(self).auctions@ == old(self).auctions@.insert(
                    auction_id,
                    Auction { state: AuctionState::Ended, ..auction },
                )
                &&& open && auction.highest_bid > 0 && bid_amount <= auction.highest_bid
                    ==> refused(res, "Bid too low") && final(self).auctions@ == old(self).auctions@
                &&& open && auction.highest_bid == 0 && bid_amount < auction.reserve_price
                    ==> refused(res, "Bid below reserve price")
                        && final(self).auctions@ == old(self).auctions@
                &&& open && bid_is_high_enough(auction, bid_amount) ==> res == Ok::<
                    (),
                    &'static str,
                >(()) && final(self).auctions@ == old(self).auctions@.insert(
                    auction_id,
                    Auction { highest_bid: bid_amount, highest_bidder: Some(bidder), ..auction },
                )
            }),
    {
        let auction = match self.auctions.get(&auction_id) {
            Some(auction) => auction,
            None => return Err("Auction not found"),
        };
        if auction.state != AuctionState::Active {
            return Err("Auction is not active");
        }
        if self.current_time >= auction.end_time {
            let mut auction = self.auctions.remove(&auction_id).unwrap();
            auction.state = AuctionState::Ended;
            self.auctions.insert(auction_id, auction);
            assert(self.auctions@ =~= old(self).auctions@.insert(
                auction_id,
                Auction { state: AuctionState::Ended, ..old(self).auctions@[auction_id] },
            ));
            return Err("Auction has ended");
        }
        if auction.highest_bid > 0 && bid_amount <= auction.highest_bid {
            return Err("Bid too low");
        }
        if auction.highest_bid == 0 && bid_amount < auction.reserve_price {
            return Err("Bid below reserve price");
        }
        let mut auction = self.auctions.remove(&auction_id).unwrap();
        auction.highest_bid = bid_amount;
        auction.highest_bidder = Some(bidder);
        self.auctions.insert(auction_id, auction);
        assert(self.auctions@ =~= old(self).auctions@.insert(
            auction_id,
            Auction {
                highest_bid: bid_amount,
                highest_bidder: Some(bidder),
                ..old(self).auctions@[auction_id]
            },
        ));
        Ok(())
    }

    /// Pays the staker the reward for the time since its last claim and
    /// moves the time of the last claim to now, so that no time is paid
    /// twice. A claim at the time of the last one pays nothing.
    pub fn claim_rewards(&mut self, staker: Address) -> (res: Result<u64, &'static str>)
        requires
            old(self).claim_fits(staker),
        ensures
            final(self).staking_accounts.order() == old(self).staking_accounts.order(),
            final(self).auctions == old(self).auctions,
            final(self).current_time == old(self).current_time,
            final(self).total_staked == old(self).total_staked,
            !old(self).staking_accounts@.contains_key(staker) ==> refused(
                res,
                "Staking account not found",
            ),
            old(self).staking_accounts@.contains_key(staker) ==> ({
                let account = old(self).staking_accounts@[staker];
                let seconds = old(self).current_time - account.last_claim_time;
                let reward = reward_for(account.staked_amount, seconds, old(self).total_staked);
                &&& seconds == 0 ==> res == Ok::<u64, &'static str>(0) && final(self).reward_pool
                    == old(self).reward_pool
                        && final(self).staking_accounts@ == old(self).staking_accounts@
                &&& seconds > 0 && reward > old(self).reward_pool ==> refused(
                    res,
                    "Insufficient rewards in pool",
                )
                &&& seconds > 0 && reward <= old(self).reward_pool ==> {
                    &&& res == Ok::<u64, &'static str>(reward as u64)
                    &&& final(self).reward_pool == old(self).reward_pool - reward
                    &&& final(self).staking_accounts@ == old(self).staking_accounts@.insert(
                        staker,
                        StakingAccount {
                            reward_balance: (account.reward_balance + reward) as u64,
                            accumulated_rewards: (account.accumulated_rewards + reward) as u64,
                            last_claim_time: old(self).current_time,
                            ..account
                        },
                    )
                }
            }),
            res is Err
                ==> final(self).reward_pool == old(self).reward_pool
                    && final(self).staking_accounts@ == old(self).staking_accounts@,
    {
        let account = match self.staking_accounts.get_mut(&staker) {
            Some(account) => account,
            None => return Err("Staking account not found"),
        };
        let time_delta = self.current_time - account.last_claim_time;
        if time_delta == 0 {
            return Ok(0);
        }
        let reward_amount = if self.total_staked > 0 {
            account.staked_amount * REWARD_RATE * time_delta / REWARD_PERIOD
        } else {
            0
        };
        if reward_amount > self.reward_pool {
            return Err("Insufficient rewards in pool");
        }
        self.reward_pool -= reward_amount;
        account.reward_balance += reward_amount;
        account.accumulated_rewards += reward_amount;
        account.last_claim_time = self.current_time;
        Ok(reward_amount)
    }

    /// Closes an auction that has ended, or that is active and past its end
    /// time. Without a bid the auction is closed all the same, and the call
    /// reports an error.
    pub fn finalize_auction(&mut self, auction_id: u64) -> (res: Result<(), &'static str>)
        ensures
            final(self).staking_accounts == old(self).staking_accounts,
            final(self).reward_pool == old(self).reward_pool,
            final(self).current_time == old(self).current_time,
            final(self).total_staked == old(self).total_staked,
            !old(self).auctions@.contains_key(auction_id) ==> refused(res, "Auction not found")
                && final(self).auctions@ == old(self).auctions@,
            old(self).auctions@.contains_key(auction_id) ==> ({
                let auction = old(self).auctions@[auction_id];
                let now = old(self).current_time;
                &&& auction.state == AuctionState::Initialized ==> refused(
                    res,
                    "Auction not started",
                )
                &&& auction.state == AuctionState::Active && now < auction.end_time ==> refused(
                    res,
                    "Auction still active",
                )
                &&& auction.state == AuctionState::Finalized ==> refused(
                    res,
                    "Auction already finalized",
                )
                &&& !can_finalize(auction, now) ==> final(self).auctions@ == old(self).auctions@
                &&& can_finalize(auction, now)
                    ==> final(self).auctions@
                        == old(self).auctions@.insert(auction_id, Auction { state: AuctionState::Finalized, ..auction })
                &&& can_finalize(auction, now) && auction.highest_bidder is None ==> refused(
                    res,
                    "No bids placed, auction closed without winner",
                )
                &&& can_finalize(auction, now) && auction.highest_bidder is Some ==> res == Ok::<
                    (),
                    &'static str,
                >(())
            }),
    {
        let auction = match self.auctions.get(&auction_id) {
            Some(auction) => auction,
            None => return Err("Auction not found"),
        };
        match auction.state {
            AuctionState::Initialized => return Err("Auction not started"),
            AuctionState::Active => {
                if self.current_time < auction.end_time {
                    return Err("Auction still active");
                }
            },
            AuctionState::Ended => {},
            AuctionState::Finalized => return Err("Auction already finalized"),
        }
        let mut auction = self.auctions.remove(&auction_id).unwrap();
        if auction.state == AuctionState::Active && self.current_time >= auction.end_time {
            auction.state = AuctionState::Ended;
        }
        let has_bid = auction.highest_bidder.is_some();
        auction.state = AuctionState::Finalized;
        self.auctions.insert(auction_id, auction);
        assert(self.auctions@ =~= old(self).auctions@.insert(
            auction_id,
            Auction { state: AuctionState::Finalized, ..old(self).auctions@[auction_id] },
        ));
        if !has_bid {
            return Err("No bids placed, auction closed without winner");
        }
        Ok(())
    }

    /// Moves the clock forward. The new time has to fit in 64 bits.
    pub fn advance_time(&mut self, seconds: u64)
        requires
            old(self).current_time + seconds <= u64::MAX,
        ensures
            final(self).current_time == old(self).current_time + seconds,
            final(self).auctions == old(self).auctions,
            final(self).staking_accounts == old(self).staking_accounts,
            final(self).reward_pool == old(self).reward_pool,
            final(self).total_staked == old(self).total_staked,
    {
        self.current_time += seconds;
    }
}

} // verus!
