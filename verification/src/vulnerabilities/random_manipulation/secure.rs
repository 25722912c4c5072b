//! A game platform that draws its random numbers from a seed that was
//! committed to beforehand, from an outside source of randomness, or from
//! several sources at once.

use crate::collections::address_map::{order_with, Address, AddressMap};
use crate::vulnerabilities::refused;
use std::collections::HashMap;
use vstd::prelude::*;

verus! {

broadcast use vstd::std_specs::hash::group_hash_axioms;

/// The block number that a new platform starts at.
pub const FIRST_BLOCK: u64 = 1;

/// The time of the first block.
pub const FIRST_TIMESTAMP: u64 = 1_650_000_000;

/// Seconds from one block to the next.
pub const BLOCK_TIME: u64 = 12;

/// Number of blocks within which a committed seed has to be revealed.
pub const REVEAL_WINDOW: u64 = 10;

#[derive(Debug, Clone)]
pub struct Lottery {
    pub id: u64,
    pub participants: Vec<Address>,
    pub ticket_count: u64,
    pub winner: Option<Address>,
    pub prize_amount: u64,
    pub is_complete: bool,
    pub commit_hash: Option<Address>,
    pub reveal_deadline: Option<u64>,
}

#[derive(Debug, Clone, Copy, PartialEq, Eq, Structural)]
pub struct NFTAttributes {
    pub rarity: u8,
    pub strength: u8,
    pub agility: u8,
    pub intelligence: u8,
    pub luck: u8,
}

#[derive(Debug, Clone)]
pub struct CommitReveal {
    pub committer: Address,
    pub commit_hash: Address,
    pub revealed_value: Option<Address>,
    pub commit_block: u64,
    pub reveal_deadline: u64,
}

#[derive(Debug, Clone)]
pub struct RandomnessRequest {
    pub id: u64,
    pub requester: Address,
    pub fulfilled: bool,
    pub random_value: Option<Address>,
    pub callback_data: Vec<u8>,
}

pub struct GamePlatform {
    pub lotteries: HashMap<u64, Lottery>,
    pub nfts: HashMap<u64, NFTAttributes>,
    pub next_lottery_id: u64,
    pub next_nft_id: u64,
    pub block_number: u64,
    pub block_timestamp: u64,
    pub commit_reveals: AddressMap<CommitReveal>,
    pub randomness_requests: HashMap<u64, RandomnessRequest>,
    pub next_request_id: u64,
    /// Key of the outside source of randomness.
    pub vrf_public_key: Address,
}

/// The highest of the eight bytes of `x`.
pub open spec fn top_byte(x: u64) -> u8 {
    (x >> 56) as u8
}

/// Whether a seed can be committed for a lottery: it is not complete and
/// has participants.
pub open spec fn can_commit(lottery: Lottery) -> bool {
    !lottery.is_complete && lottery.participants@.len() > 0
}

/// The place of the winner among `count` participants: the first byte of
/// the seed, bit by bit either-or the highest byte of the time of the
/// block, modulo `count`.
pub open spec fn winner_index(seed: Address, block_timestamp: u64, count: int) -> int {
    (seed[0] ^ top_byte(block_timestamp)) as int % count
}

/// One attribute from one random byte: the byte scaled to `range`, and one
/// more.
pub open spec fn scaled(byte: u8, range: u16) -> u8 {
    (((byte as u16) * range / 255) + 1) as u8
}

/// The attributes that a random value gives.
pub open spec fn attributes_of(random_value: Address) -> NFTAttributes {
    NFTAttributes {
        rarity: scaled(random_value[0], 100),
        strength: scaled(random_value[1], 50),
        agility: scaled(random_value[2], 50),
        intelligence: scaled(random_value[3], 50),
        luck: scaled(random_value[4], 50),
    }
}

/// The roll of a player: the first bytes of the player's address and of
/// its seed and the highest bytes of the number and of the time of the
/// block, all bit by bit either-or, modulo six, and one more.
pub open spec fn dice_of(
    player: Address,
    player_seed: Address,
    block_number: u64,
    block_timestamp: u64,
) -> int {
    (player[0] ^ player_seed[0] ^ top_byte(block_number) ^ top_byte(block_timestamp)) % 6 + 1
}

fn top_byte_of(x: u64) -> (byte: u8)
    ensures
        byte == top_byte(x),
{
    #[verifier::truncate]
    ((x >> 56) as u8)
}

fn scale(byte: u8, range: u16) -> (attribute: u8)
    requires
        range <= 100,
    ensures
        attribute == scaled(byte, range),
{
    assert((byte as u16) * range <= 25500) by (nonlinear_arith)
        requires
            byte <= 255,
            range <= 100,
    ;
    (((byte as u16) * range / 255) + 1) as u8
}

impl GamePlatform {
    /// Whether the seed of a lottery can be revealed now: the lottery is
    /// not complete, a seed was committed, the deadline has not passed,
    /// and the commitment is on record.
    pub open spec fn can_reveal(&self, lottery_id: u64) -> bool {
        &&& self.lotteries@.contains_key(lottery_id)
        &&& !self.lotteries@[lottery_id].is_complete
        &&& self.lotteries@[lottery_id].commit_hash is Some
        &&& !self.deadline_passed(lottery_id)
        &&& self.commit_reveals@.contains_key(self.lotteries@[lottery_id].commit_hash->0)
    }

    /// Whether the lottery has a deadline that lies before this block.
    pub open spec fn deadline_passed(&self, lottery_id: u64) -> bool {
        self.lotteries@[lottery_id].reveal_deadline matches Some(deadline) && self.block_number
            > deadline
    }

    pub fn new() -> (platform: Self)
        ensures
            platform.lotteries@ == Map::<u64, Lottery>::empty(),
            platform.nfts@ == Map::<u64, NFTAttributes>::empty(),
            platform.next_lottery_id == 1,
            platform.next_nft_id == 1,
            platform.block_number == FIRST_BLOCK,
            platform.block_timestamp == FIRST_TIMESTAMP,
            platform.commit_reveals@ == Map::<Address, CommitReveal>::empty(),
            platform.randomness_requests@ == Map::<u64, RandomnessRequest>::empty(),
            platform.next_request_id == 1,
            forall|i: int| 0 <= i < 32 ==> platform.vrf_public_key[i] == 0xaa,
    {
        Self {
            lotteries: HashMap::new(),
            nfts: HashMap::new(),
            next_lottery_id: 1,
            next_nft_id: 1,
            block_number: FIRST_BLOCK,
            block_timestamp: FIRST_TIMESTAMP,
            commit_reveals: AddressMap::new(),
            randomness_requests: HashMap::new(),
            next_request_id: 1,
            vrf_public_key: [0xaa; 32],
        }
    }

    /// First step of a draw: the hash of a seed is committed, and the seed
    /// has to be revealed within the reveal window. The end of the window
    /// has to fit in 64 bits.
    pub fn commit_lottery_seed(
        &mut self,
        lottery_id: u64,
        committer: Address,
        commit_hash: Address,
    ) -> (res: Result<(), &'static str>)
        requires
            old(self).lotteries@.contains_key(lottery_id) && can_commit(
                old(self).lotteries@[lottery_id],
            ) ==> old(self).block_number + REVEAL_WINDOW <= u64::MAX,
        ensures
            res is Err ==> final(self).commit_reveals.order() == old(self).commit_reveals.order(),
            res is Ok
                ==> final(self).commit_reveals.order()
                    == order_with(old(self).commit_reveals.order(), commit_hash),
            final(self).nfts == old(self).nfts,
            final(self).next_lottery_id == old(self).next_lottery_id,
            final(self).next_nft_id == old(self).next_nft_id,
            final(self).block_number == old(self).block_number,
            final(self).block_timestamp == old(self).block_timestamp,
            final(self).randomness_requests == old(self).randomness_requests,
            final(self).next_request_id == old(self).next_request_id,
            final(self).vrf_public_key == old(self).vrf_public_key,
            !old(self).lotteries@.contains_key(lottery_id) ==> refused(res, "Lottery not found"),
            old(self).lotteries@.contains_key(lottery_id) ==> ({
                let lottery = old(self).lotteries@[lottery_id];
                let deadline = (old(self).block_number + REVEAL_WINDOW) as u64;
                &&& lottery.is_complete ==> refused(res, "Lottery already completed")
                &&& !lottery.is_complete && lottery.participants@.len() == 0 ==> refused(
                    res,
                    "No participants in lottery",
                )
                &&& can_commit(lottery) ==> {
                    &&& res == Ok::<(), &'static str>(())
                    &&& final(self).lotteries@ == old(self).lotteries@.insert(
                        lottery_id,
                        Lottery {
                            commit_hash: Some(commit_hash),
                            reveal_deadline: Some(deadline),
                            ..lottery
                        },
                    )
                    &&& final(self).commit_reveals@ == old(self).commit_reveals@.insert(
                        commit_hash,
                        CommitReveal {
                            committer,
                            commit_hash,
                            revealed_value: None,
                            commit_block: old(self).block_number,
                            reveal_deadline: deadline,
                        },
                    )
                }
            }),
            res is Err
                ==> final(self).lotteries@ == old(self).lotteries@
                    && final(self).commit_reveals@ == old(self).commit_reveals@,
    {
        let lottery = match self.lotteries.get(&lottery_id) {
            Some(lottery) => lottery,
            None => return Err("Lottery not found"),
        };
        if lottery.is_complete {
            return Err("Lottery already completed");
        }
        if lottery.participants.len() == 0 {
            return Err("No participants in lottery");
        }
        let deadline = self.block_number + REVEAL_WINDOW;
        let mut lottery = self.lotteries.remove(&lottery_id).unwrap();
        lottery.commit_hash = Some(commit_hash);
        lottery.reveal_deadline = Some(deadline);
        self.lotteries.insert(lottery_id, lottery);
        assert(self.lotteries@ =~= old(self).lotteries@.insert(
            lottery_id,
            Lottery {
                commit_hash: Some(commit_hash),
                reveal_deadline: Some(deadline),
                ..old(self).lotteries@[lottery_id]
            },
        ));
        let commit_reveal = CommitReveal {
            committer,
            commit_hash,
            revealed_value: None,
            commit_block: self.block_number,
            reveal_deadline: deadline,
        };
        self.commit_reveals.insert(commit_hash, commit_reveal);
        Ok(())
    }

    /// Second step of a draw: the seed is revealed and written down with
    /// its commitment, and the winner is drawn from the seed and the time
    /// of the block. That the seed fits the committed hash is not checked.
    /// The lottery must have participants.
    pub fn reveal_lottery_seed(&mut self, lottery_id: u64, seed: Address, salt: Address) -> (res:
        Result<Address, &'static str>)
        requires
            old(self).can_reveal(lottery_id)
                ==> old(self).lotteries@[lottery_id].participants@.len() > 0,
        ensures
            final(self).commit_reveals.order() == old(self).commit_reveals.order(),
            final(self).nfts == old(self).nfts,
            final(self).next_lottery_id == old(self).next_lottery_id,
            final(self).next_nft_id == old(self).next_nft_id,
            final(self).block_number == old(self).block_number,
            final(self).block_timestamp == old(self).block_timestamp,
            final(self).randomness_requests == old(self).randomness_requests,
            final(self).next_request_id == old(self).next_request_id,
            final(self).vrf_public_key == old(self).vrf_public_key,
            !old(self).lotteries@.contains_key(lottery_id) ==> refused(res, "Lottery not found"),
            old(self).lotteries@.contains_key(lottery_id) ==> ({
                let lottery = old(self).lotteries@[lottery_id];
                &&& lottery.is_complete ==> refused(res, "Lottery already completed")
                &&& !lottery.is_complete && lottery.commit_hash is None ==> refused(
                    res,
                    "No commit found for this lottery",
                )
                &&& !lottery.is_complete && lottery.commit_hash is Some
                    && old(self).deadline_passed(lottery_id)
                        ==> refused(res, "Reveal deadline has passed")
                &&& !lottery.is_complete && lottery.commit_hash is Some
                    && !old(self).deadline_passed(lottery_id)
                        && !old(self).commit_reveals@.contains_key(
                    lottery.commit_hash->0,
                ) ==> refused(res, "Commit not found")
            }),
            res is Err
                ==> final(self).lotteries@ == old(self).lotteries@
                    && final(self).commit_reveals@ == old(self).commit_reveals@,
            old(self).can_reveal(lottery_id) ==> ({
                let lottery = old(self).lotteries@[lottery_id];
                let commit_hash = lottery.commit_hash->0;
                let winner = lottery.participants@[winner_index(
                    seed,
                    old(self).block_timestamp,
                    lottery.participants@.len() as int,
                )];
                &&& res == Ok::<Address, &'static str>(winner)
                &&& final(self).lotteries@ == old(self).lotteries@.insert(
                    lottery_id,
                    Lottery { winner: Some(winner), is_complete: true, ..lottery },
                )
                &&& final(self).commit_reveals@ == old(self).commit_reveals@.insert(
                    commit_hash,
                    CommitReveal {
                        revealed_value: Some(seed),
                        ..old(self).commit_reveals@[commit_hash]
                    },
                )
            }),
    {
        let lottery = match self.lotteries.get(&lottery_id) {
            Some(lottery) => lottery,
            None => return Err("Lottery not found"),
        };
        if lottery.is_complete {
            return Err("Lottery already completed");
        }
        let commit_hash = match lottery.commit_hash {
            Some(hash) => hash,
            None => return Err("No commit found for this lottery"),
        };
        match lottery.reveal_deadline {
            Some(deadline) => {
                if self.block_number > deadline {
                    return Err("Reveal deadline has passed");
                }
            },
            None => {},
        }
        let commit_reveal = match self.commit_reveals.get_mut(&commit_hash) {
            Some(commit_reveal) => commit_reveal,
            None => return Err("Commit not found"),
        };
        commit_reveal.revealed_value = Some(seed);
        let combined = seed[0] ^ top_byte_of(self.block_timestamp);
        let winner_index = ((combined as u64) % (lottery.participants.len() as u64)) as usize;
        let winner = lottery.participants[winner_index];
        let mut lottery = self.lotteries.remove(&lottery_id).unwrap();
        lottery.winner = Some(winner);
        lottery.is_complete = true;
        self.lotteries.insert(lottery_id, lottery);
        assert(self.lotteries@ =~= old(self).lotteries@.insert(
            lottery_id,
            Lottery { winner: Some(winner), is_complete: true, ..old(self).lotteries@[lottery_id] },
        ));
        Ok(winner)
    }

    /// Asks the outside source of randomness for a value to mint an NFT
    /// with. The number of the next request has to fit in 64 bits.
    pub fn request_random_nft(&mut self, minter: Address) -> (res: Result<u64, &'static str>)
        requires
            old(self).next_request_id < u64::MAX,
        ensures
            final(self).lotteries == old(self).lotteries,
            final(self).nfts == old(self).nfts,
            final(self).next_lottery_id == old(self).next_lottery_id,
            final(self).next_nft_id == old(self).next_nft_id,
            final(self).block_number == old(self).block_number,
            final(self).block_timestamp == old(self).block_timestamp,
            final(self).commit_reveals == old(self).commit_reveals,
            final(self).vrf_public_key == old(self).vrf_public_key,
            res == Ok::<u64, &'static str>(old(self).next_request_id),
            final(self).next_request_id == old(self).next_request_id + 1,
            final(self).randomness_requests@.dom() == old(self).randomness_requests@.dom().insert(
                old(self).next_request_id,
            ),
            forall|k: u64|
                old(self).randomness_requests@.contains_key(k) && k != old(self).next_request_id
                    ==> final(self).randomness_requests@[k] == old(self).randomness_requests@[k],
            ({
                let request = final(self).randomness_requests@[old(self).next_request_id];
                &&& request.id == old(self).next_request_id
                &&& request.requester == minter
                &&& !request.fulfilled
                &&& request.random_value is None
                &&& request.callback_data@ == Seq::<u8>::empty()
            }),
    {
        let request_id = self.next_request_id;
        self.next_request_id += 1;
        let request = RandomnessRequest {
            id: request_id,
            requester: minter,
            fulfilled: false,
            random_value: None,
            callback_data: Vec::new(),
        };
        self.randomness_requests.insert(request_id, request);
        assert(self.randomness_requests@.dom() =~= old(self).randomness_requests@.dom().insert(
            request_id,
        ));
        Ok(request_id)
    }

    /// Takes the value that the outside source of randomness hands in for
    /// a request, and mints the NFT with it. The proof that comes with the
    /// value is not checked. The number of the next NFT has to fit in 64
    /// bits.
    pub fn fulfill_randomness(
        &mut self,
        request_id: u64,
        random_value: Address,
        proof_bytes: [u8; 64],
    ) -> (res: Result<u64, &'static str>)
        requires
            old(self).randomness_requests@.contains_key(request_id)
                && !old(self).randomness_requests@[request_id].fulfilled
                    ==> old(self).next_nft_id < u64::MAX,
        ensures
            final(self).lotteries == old(self).lotteries,
            final(self).next_lottery_id == old(self).next_lottery_id,
            final(self).block_number == old(self).block_number,
            final(self).block_timestamp == old(self).block_timestamp,
            final(self).commit_reveals == old(self).commit_reveals,
            final(self).next_request_id == old(self).next_request_id,
            final(self).vrf_public_key == old(self).vrf_public_key,
            !old(self).randomness_requests@.contains_key(request_id) ==> refused(
                res,
                "Request not found",
            ),
            old(self).randomness_requests@.contains_key(request_id)
                && old(self).randomness_requests@[request_id].fulfilled ==> refused(
                res,
                "Request already fulfilled",
            ),
            res is Err ==> final(self).randomness_requests@ == old(self).randomness_requests@
                && final(self).nfts@ == old(self).nfts@
                    && final(self).next_nft_id == old(self).next_nft_id,
            old(self).randomness_requests@.contains_key(request_id)
                && !old(self).randomness_requests@[request_id].fulfilled ==> {
                &&& res == Ok::<u64, &'static str>(old(self).next_nft_id)
                &&& final(self).next_nft_id == old(self).next_nft_id + 1
                &&& final(self).nfts@ == old(self).nfts@.insert(
                    old(self).next_nft_id,
                    attributes_of(random_value),
                )
                &&& final(self).randomness_requests@ == old(self).randomness_requests@.insert(
                    request_id,
                    RandomnessRequest {
                        fulfilled: true,
                        random_value: Some(random_value),
                        ..old(self).randomness_requests@[request_id]
                    },
                )
            },
    {
        let request = match self.randomness_requests.get(&request_id) {
            Some(request) => request,
            None => return Err("Request not found"),
        };
        if request.fulfilled {
            return Err("Request already fulfilled");
        }
        let mut request = self.randomness_requests.remove(&request_id).unwrap();
        request.fulfilled = true;
        request.random_value = Some(random_value);
        self.randomness_requests.insert(request_id, request);
        assert(self.randomness_requests@ =~= old(self).randomness_requests@.insert(
            request_id,
            RandomnessRequest {
                fulfilled: true,
                random_value: Some(random_value),
                ..old(self).randomness_requests@[request_id]
            },
        ));
        let attributes = NFTAttributes {
            rarity: scale(random_value[0], 100),
            strength: scale(random_value[1], 50),
            agility: scale(random_value[2], 50),
            intelligence: scale(random_value[3], 50),
            luck: scale(random_value[4], 50),
        };
        let nft_id = self.next_nft_id;
        self.next_nft_id += 1;
        self.nfts.insert(nft_id, attributes);
        Ok(nft_id)
    }

    /// Rolls a dice for a player from the player's address, a seed that
    /// the player brings, and the number and the time of the block.
    pub fn roll_dice(&mut self, player: Address, player_seed: Address) -> (res: Result<
        u8,
        &'static str,
    >)
        ensures
            *final(self) == *old(self),
            res == Ok::<u8, &'static str>(
                dice_of(player, player_seed, old(self).block_number, old(self).block_timestamp) as u8,
            ),
            1 <= dice_of(player, player_seed, old(self).block_number, old(self).block_timestamp)
                <= 6,
    {
        let previous_block = top_byte_of(self.block_number);
        let mut combined = player[0] ^ player_seed[0] ^ previous_block;
        combined = combined ^ top_byte_of(self.block_timestamp);
        let dice_value = (combined % 6) + 1;
        Ok(dice_value)
    }

    /// Moves on to the next block. The new number and time have to fit in
    /// 64 bits.
    pub fn advance_block(&mut self)
        requires
            old(self).block_number < u64::MAX,
            old(self).block_timestamp + BLOCK_TIME <= u64::MAX,
        ensures
            final(self).block_number == old(self).block_number + 1,
            final(self).block_timestamp == old(self).block_timestamp + BLOCK_TIME,
            final(self).lotteries == old(self).lotteries,
            final(self).nfts == old(self).nfts,
            final(self).next_lottery_id == old(self).next_lottery_id,
            final(self).next_nft_id == old(self).next_nft_id,
            final(self).commit_reveals == old(self).commit_reveals,
            final(self).randomness_requests == old(self).randomness_requests,
            final(self).next_request_id == old(self).next_request_id,
            final(self).vrf_public_key == old(self).vrf_public_key,
    {
        self.block_number += 1;
        self.block_timestamp += BLOCK_TIME;
    }
}

} // verus!
