//! A game platform that draws its random numbers from the block it runs
//! in: whoever knows or makes the block knows the outcome.

use crate::collections::address_map::Address;
use crate::vulnerabilities::refused;
use std::collections::HashMap;
use vstd::prelude::*;

verus! {

broadcast use vstd::std_specs::hash::group_hash_axioms;

/// The block number that a new platform starts at.
pub const FIRST_BLOCK: u64 = 1;

/// The time of the first block.
pub const FIRST_TIMESTAMP: u64 = 1_650_000_000;

/// Seconds from one block to the next.
pub const BLOCK_TIME: u64 = 12;

#[derive(Debug, Clone)]
pub struct Lottery {
    pub id: u64,
    pub participants: Vec<Address>,
    pub ticket_count: u64,
    pub winner: Option<Address>,
    pub prize_amount: u64,
    pub is_complete: bool,
}

#[derive(Debug, Clone, Copy, PartialEq, Eq, Structural)]
pub struct NFTAttributes {
    pub rarity: u8,
    pub strength: u8,
    pub agility: u8,
    pub intelligence: u8,
    pub luck: u8,
}

pub struct GamePlatform {
    pub lotteries: HashMap<u64, Lottery>,
    pub nfts: HashMap<u64, NFTAttributes>,
    pub next_lottery_id: u64,
    pub next_nft_id: u64,
    pub block_number: u64,
    pub block_timestamp: u64,
}

/// Whether a lottery can be drawn: it is not complete and has
/// participants.
pub open spec fn can_draw(lottery: Lottery) -> bool {
    !lottery.is_complete && lottery.participants@.len() > 0
}

/// The place of the winner among `count` participants: the time of the
/// block, bit by bit either-or the number of the block, modulo `count`.
pub open spec fn winner_index(block_timestamp: u64, block_number: u64, count: int) -> int {
    (block_timestamp ^ block_number) as int % count
}

/// The seed of a mint after `upto` bytes: each of the first bytes of the
/// transaction hash, bit by bit either-or the lowest byte of the time and
/// of the number of the block, shifted in from the right.
pub open spec fn mint_seed(tx_hash: Address, block_timestamp: u64, block_number: u64, upto: int) -> u64
    decreases upto,
{
    if upto <= 0 {
        0
    } else {
        (mint_seed(tx_hash, block_timestamp, block_number, upto - 1) << 8) | ((tx_hash[upto - 1]
            ^ (block_timestamp as u8) ^ (block_number as u8)) as u64)
    }
}

/// The attributes that a seed gives.
pub open spec fn attributes_of(seed: u64) -> NFTAttributes {
    NFTAttributes {
        rarity: ((seed % 100) + 1) as u8,
        strength: (((seed >> 8) % 50) + 1) as u8,
        agility: (((seed >> 16) % 50) + 1) as u8,
        intelligence: (((seed >> 24) % 50) + 1) as u8,
        luck: (((seed >> 32) % 50) + 1) as u8,
    }
}

/// The roll of a player: the time of the block, bit by bit either-or the
/// first byte of the player's address, modulo six, and one more.
pub open spec fn dice_of(block_timestamp: u64, player: Address) -> int {
    (block_timestamp ^ (player[0] as u64)) % 6 + 1
}

impl GamePlatform {
    pub fn new() -> (platform: Self)
        ensures
            platform.lotteries@ == Map::<u64, Lottery>::empty(),
            platform.nfts@ == Map::<u64, NFTAttributes>::empty(),
            platform.next_lottery_id == 1,
            platform.next_nft_id == 1,
            platform.block_number == FIRST_BLOCK,
            platform.block_timestamp == FIRST_TIMESTAMP,
    {
        Self {
            lotteries: HashMap::new(),
            nfts: HashMap::new(),
            next_lottery_id: 1,
            next_nft_id: 1,
            block_number: FIRST_BLOCK,
            block_timestamp: FIRST_TIMESTAMP,
        }
    }

    /// Draws the winner of a lottery from the time and the number of the
    /// block alone.
    pub fn select_lottery_winner(&mut self, lottery_id: u64) -> (res: Result<Address, &'static str>)
        ensures
            final(self).nfts == old(self).nfts,
            final(self).next_lottery_id == old(self).next_lottery_id,
            final(self).next_nft_id == old(self).next_nft_id,
            final(self).block_number == old(self).block_number,
            final(self).block_timestamp == old(self).block_timestamp,
            !old(self).lotteries@.contains_key(lottery_id) ==> refused(res, "Lottery not found"),
            old(self).lotteries@.contains_key(lottery_id) ==> ({
                let lottery = old(self).lotteries@[lottery_id];
                let winner = lottery.participants@[winner_index(
                    old(self).block_timestamp,
                    old(self).block_number,
                    lottery.participants@.len() as int,
                )];
                &&& lottery.is_complete ==> refused(res, "Lottery already completed")
                &&& !lottery.is_complete && lottery.participants@.len() == 0 ==> refused(
                    res,
                    "No participants in lottery",
                )
                &&& can_draw(lottery)
                    ==> res == Ok::<Address, &'static str>(winner)
                        && final(self).lotteries@ == old(self).lotteries@.insert(
                    lottery_id,
                    Lottery { winner: Some(winner), is_complete: true, ..lottery },
                )
            }),
            res is Err ==> final(self).lotteries@ == old(self).lotteries@,
    {
        let lottery = match self.lotteries.get(&lottery_id) {
            Some(lottery) => lottery,
            None => return Err("Lottery not found"),
        };
        if lottery.is_complete {
            return Err("Lottery already completed");
        }
        if lottery.participants.len() == 0 {
            return Err("No participants in lottery");
        }
        let random_seed = self.block_timestamp ^ self.block_number;
        let winner_index = random_seed % (lottery.participants.len() as u64);
        let winner = lottery.participants[winner_index as usize];
        let mut lottery = self.lotteries.remove(&lottery_id).unwrap();
        lottery.winner = Some(winner);
        lottery.is_complete = true;
        self.lotteries.insert(lottery_id, lottery);
        assert(self.lotteries@ =~= old(self).lotteries@.insert(
            lottery_id,
            Lottery { winner: Some(winner), is_complete: true, ..old(self).lotteries@[lottery_id] },
        ));
        Ok(winner)
    }

    /// Mints an NFT whose attributes come from the transaction hash, which
    /// the minter chooses, and from the block. The number of the next NFT
    /// has to fit in 64 bits.
    pub fn mint_random_nft(&mut self, minter: Address, tx_hash: Address) -> (res: Result<
        u64,
        &'static str,
    >)
        requires
            old(self).next_nft_id < u64::MAX,
        ensures
            final(self).lotteries == old(self).lotteries,
            final(self).next_lottery_id == old(self).next_lottery_id,
            final(self).block_number == old(self).block_number,
            final(self).block_timestamp == old(self).block_timestamp,
            res == Ok::<u64, &'static str>(old(self).next_nft_id),
            final(self).next_nft_id == old(self).next_nft_id + 1,
            final(self).nfts@ == old(self).nfts@.insert(
                old(self).next_nft_id,
                attributes_of(
                    mint_seed(tx_hash, old(self).block_timestamp, old(self).block_number, 8),
                ),
            ),
    {
        let time_byte = #[verifier::truncate]
        (self.block_timestamp as u8);
        let number_byte = #[verifier::truncate]
        (self.block_number as u8);
        let mut seed: u64 = 0;
        let mut i: usize = 0;
        while i < 8
            invariant
                i <= 8,
                time_byte == self.block_timestamp as u8,
                number_byte == self.block_number as u8,
                seed == mint_seed(tx_hash, self.block_timestamp, self.block_number, i as int),
            decreases 8 - i,
        {
            let byte = tx_hash[i] ^ time_byte ^ number_byte;
            seed = (seed << 8) | (byte as u64);
            i += 1;
        }
        let attributes = NFTAttributes {
            rarity: ((seed % 100) + 1) as u8,
            strength: (((seed >> 8) % 50) + 1) as u8,
            agility: (((seed >> 16) % 50) + 1) as u8,
            intelligence: (((seed >> 24) % 50) + 1) as u8,
            luck: (((seed >> 32) % 50) + 1) as u8,
        };
        let nft_id = self.next_nft_id;
        self.next_nft_id += 1;
        self.nfts.insert(nft_id, attributes);
        Ok(nft_id)
    }

    /// Rolls a dice for a player from the time of the block and the
    /// player's address.
    pub fn roll_dice(&mut self, player: Address) -> (roll: u8)
        ensures
            *final(self) == *old(self),
            roll == dice_of(old(self).block_timestamp, player),
            1 <= roll <= 6,
    {
        let random_value = (self.block_timestamp ^ (player[0] as u64)) % 6;
        (random_value + 1) as u8
    }

    /// Moves on to the next block. The new number and time have to fit in
    /// 64 bits.
    pub fn advance_block(&mut self)
        requires
            old(self).block_number < u64::MAX,
            old(self).block_timestamp + BLOCK_TIME <= u64::MAX,
        ensures
            final(self).block_number == old(self).block_number + 1,
            final(self).block_timestamp == old(self).block_timestamp + BLOCK_TIME,
            final(self).lotteries == old(self).lotteries,
            final(self).nfts == old(self).nfts,
            final(self).next_lottery_id == old(self).next_lottery_id,
            final(self).next_nft_id == old(self).next_nft_id,
    {
        self.block_number += 1;
        self.block_timestamp += BLOCK_TIME;
    }
}

} // verus!
