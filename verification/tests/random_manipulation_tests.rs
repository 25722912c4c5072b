use rust_smart_contracts_vulns::vulnerabilities::random_manipulation::{secure, vulnerable};

#[test]
fn test_vulnerable_predictable_randomness() {
    let mut platform = vulnerable::GamePlatform::new();

    // Create a lottery
    let lottery_id = 1;
    platform.lotteries.insert(
        lottery_id,
        vulnerable::Lottery {
            id: lottery_id,
            participants: vec![[1u8; 32], [2u8; 32], [3u8; 32], [4u8; 32], [5u8; 32]],
            ticket_count: 5,
            winner: None,
            prize_amount: 100,
            is_complete: false,
        },
    );

    // Set a specific block state
    platform.block_number = 12345;
    platform.block_timestamp = 1_650_000_000;

    // Select winner - this is predictable if you know the block data
    let winner1 = platform.select_lottery_winner(lottery_id).unwrap();

    // Reset lottery
    platform.lotteries.get_mut(&lottery_id).unwrap().is_complete = false;
    platform.lotteries.get_mut(&lottery_id).unwrap().winner = None;

    // With the same block data, we get the same winner
    let winner2 = platform.select_lottery_winner(lottery_id).unwrap();
    assert_eq!(winner1, winner2);

    // Now test dice rolling
    let player = [10u8; 32];

    // Roll dice with fixed block data - predictable
    let roll1 = platform.roll_dice(player);
    let roll2 = platform.roll_dice(player);

    // Same block, same player = same result
    assert_eq!(roll1, roll2);
}

#[test]
fn test_secure_randomness_generation() {
    let mut platform = secure::GamePlatform::new();

    // Create a lottery
    let lottery_id = 1;
    platform.lotteries.insert(
        lottery_id,
        secure::Lottery {
            id: lottery_id,
            participants: vec![[1u8; 32], [2u8; 32], [3u8; 32], [4u8; 32], [5u8; 32]],
            ticket_count: 5,
            winner: None,
            prize_amount: 100,
            is_complete: false,
            commit_hash: None,
            reveal_deadline: None,
        },
    );

    // Create commit hash (in reality, this would be hash(seed + salt))
    let commit_hash = [0xbb; 32];
    let committer = [0xcc; 32];

    // Commit to a random seed
    let result = platform.commit_lottery_seed(lottery_id, committer, commit_hash);
    assert!(result.is_ok());

    // Advance a few blocks
    platform.advance_block();
    platform.advance_block();

    // Reveal the seed and select winner
    let seed = [0xdd; 32];
    let salt = [0xee; 32];
    let winner = platform.reveal_lottery_seed(lottery_id, seed, salt);
    assert!(winner.is_ok());

    // Test VRF-based NFT minting
    let minter = [0xff; 32];
    let request_id = platform.request_random_nft(minter).unwrap();

    // Simulate VRF response
    let random_value = [0x12; 32];
    let proof = [0x34; 64];

    let nft_id = platform.fulfill_randomness(request_id, random_value, proof).unwrap();

    // Verify NFT was created with attributes derived from the random value
    let nft = platform.nfts.get(&nft_id).unwrap();
    assert_eq!(nft.rarity, ((random_value[0] as u16 * 100 / 255) + 1) as u8);

    // Test secure dice roll
    let player = [0xaa; 32];
    let player_seed = [0xbb; 32];

    let roll = platform.roll_dice(player, player_seed).unwrap();
    assert!(roll >= 1 && roll <= 6);

    // Even with the same player and block, a different seed gives different results
    let different_seed = [0xcc; 32];
    let _different_roll = platform.roll_dice(player, different_seed).unwrap();
}

#[test]
fn vulnerable_draws_follow_the_block() {
    let mut platform = vulnerable::GamePlatform::new();
    assert_eq!(platform.block_number, 1);
    assert_eq!(platform.block_timestamp, 1_650_000_000);
    assert_eq!(platform.select_lottery_winner(1).unwrap_err(), "Lottery not found");
    platform.lotteries.insert(
        1,
        vulnerable::Lottery {
            id: 1,
            participants: Vec::new(),
            ticket_count: 0,
            winner: None,
            prize_amount: 100,
            is_complete: false,
        },
    );
    assert_eq!(platform.select_lottery_winner(1).unwrap_err(), "No participants in lottery");
    platform.lotteries.get_mut(&1).unwrap().participants =
        vec![[1u8; 32], [2u8; 32], [3u8; 32], [4u8; 32], [5u8; 32]];
    platform.block_number = 12345;
    // 1_650_000_000 ^ 12345 = 1_650_012_345, which leaves 0 modulo 5.
    let winner = platform.select_lottery_winner(1).unwrap();
    assert_eq!(winner, [1u8; 32]);
    assert_eq!(platform.lotteries.get(&1).unwrap().winner, Some([1u8; 32]));
    assert!(platform.lotteries.get(&1).unwrap().is_complete);
    assert_eq!(platform.select_lottery_winner(1).unwrap_err(), "Lottery already completed");
    // 1_650_000_000 ^ 10 = 1_650_000_010, which leaves 4 modulo 6.
    assert_eq!(platform.roll_dice([10u8; 32]), 5);
    platform.advance_block();
    assert_eq!(platform.block_number, 12346);
    assert_eq!(platform.block_timestamp, 1_650_000_012);
}

#[test]
fn vulnerable_mint_follows_hash_and_block() {
    let mut platform = vulnerable::GamePlatform::new();
    // The lowest bytes of time and block are 0x80 and 0x01: each byte of the
    // hash is turned into 0x12 ^ 0x80 ^ 0x01 = 0x93.
    let id = platform.mint_random_nft([7u8; 32], [0x12; 32]).unwrap();
    assert_eq!(id, 1);
    assert_eq!(platform.next_nft_id, 2);
    let seed: u64 = 0x9393_9393_9393_9393;
    let nft = platform.nfts.get(&1).unwrap();
    assert_eq!(nft.rarity, 32);
    assert_eq!(nft.strength, 40);
    assert_eq!(nft.agility, (((seed >> 16) % 50) + 1) as u8);
    assert_eq!(nft.intelligence, (((seed >> 24) % 50) + 1) as u8);
    assert_eq!(nft.luck, (((seed >> 32) % 50) + 1) as u8);
    assert_eq!(platform.mint_random_nft([7u8; 32], [0x12; 32]).unwrap(), 2);
}

fn secure_lottery(participants: Vec<[u8; 32]>) -> secure::Lottery {
    secure::Lottery {
        id: 1,
        participants,
        ticket_count: 5,
        winner: None,
        prize_amount: 100,
        is_complete: false,
        commit_hash: None,
        reveal_deadline: None,
    }
}

#[test]
fn secure_lottery_goes_through_commit_and_reveal() {
    let mut platform = secure::GamePlatform::new();
    assert_eq!(platform.vrf_public_key, [0xaa; 32]);
    let commit_hash = [0xbb; 32];
    assert_eq!(
        platform.commit_lottery_seed(1, [0xcc; 32], commit_hash).unwrap_err(),
        "Lottery not found"
    );
    assert_eq!(
        platform.reveal_lottery_seed(1, [0xdd; 32], [0xee; 32]).unwrap_err(),
        "Lottery not found"
    );
    platform.lotteries.insert(1, secure_lottery(Vec::new()));
    assert_eq!(
        platform.commit_lottery_seed(1, [0xcc; 32], commit_hash).unwrap_err(),
        "No participants in lottery"
    );
    platform.lotteries.insert(
        1,
        secure_lottery(vec![[1u8; 32], [2u8; 32], [3u8; 32], [4u8; 32], [5u8; 32]]),
    );
    assert_eq!(
        platform.reveal_lottery_seed(1, [0xdd; 32], [0xee; 32]).unwrap_err(),
        "No commit found for this lottery"
    );
    assert!(platform.commit_lottery_seed(1, [0xcc; 32], commit_hash).is_ok());
    assert_eq!(platform.lotteries.get(&1).unwrap().commit_hash, Some(commit_hash));
    assert_eq!(platform.lotteries.get(&1).unwrap().reveal_deadline, Some(11));
    let record = platform.commit_reveals.get(&commit_hash).unwrap();
    assert_eq!(record.committer, [0xcc; 32]);
    assert_eq!(record.commit_block, 1);
    assert_eq!(record.reveal_deadline, 11);
    assert_eq!(record.revealed_value, None);
    for _ in 0..11 {
        platform.advance_block();
    }
    assert_eq!(platform.block_number, 12);
    assert_eq!(
        platform.reveal_lottery_seed(1, [0xdd; 32], [0xee; 32]).unwrap_err(),
        "Reveal deadline has passed"
    );
    platform.block_number = 11;
    // The highest byte of the time is 0, so the first byte of the seed
    // decides: 0xdd = 221 leaves 1 modulo 5.
    let winner = platform.reveal_lottery_seed(1, [0xdd; 32], [0xee; 32]).unwrap();
    assert_eq!(winner, [2u8; 32]);
    assert_eq!(platform.lotteries.get(&1).unwrap().winner, Some([2u8; 32]));
    assert_eq!(
        platform.commit_reveals.get(&commit_hash).unwrap().revealed_value,
        Some([0xdd; 32])
    );
    assert_eq!(
        platform.reveal_lottery_seed(1, [0xdd; 32], [0xee; 32]).unwrap_err(),
        "Lottery already completed"
    );
    assert_eq!(
        platform.commit_lottery_seed(1, [0xcc; 32], commit_hash).unwrap_err(),
        "Lottery already completed"
    );
    // A commitment that is not on record.
    let mut orphan = secure_lottery(vec![[1u8; 32]]);
    orphan.commit_hash = Some([0x01; 32]);
    platform.lotteries.insert(2, orphan);
    assert_eq!(
        platform.reveal_lottery_seed(2, [0xdd; 32], [0xee; 32]).unwrap_err(),
        "Commit not found"
    );
}

#[test]
fn secure_mint_and_dice() {
    let mut platform = secure::GamePlatform::new();
    assert_eq!(
        platform.fulfill_randomness(1, [0x12; 32], [0x34; 64]).unwrap_err(),
        "Request not found"
    );
    let request_id = platform.request_random_nft([0xff; 32]).unwrap();
    assert_eq!(request_id, 1);
    assert_eq!(platform.next_request_id, 2);
    let request = platform.randomness_requests.get(&1).unwrap();
    assert_eq!(request.requester, [0xff; 32]);
    assert!(!request.fulfilled);
    let mut random_value = [0u8; 32];
    random_value[0] = 255;
    random_value[1] = 255;
    random_value[2] = 128;
    random_value[3] = 1;
    random_value[4] = 0;
    assert_eq!(platform.fulfill_randomness(1, random_value, [0x34; 64]).unwrap(), 1);
    let nft = platform.nfts.get(&1).unwrap();
    assert_eq!(nft.rarity, 101);
    assert_eq!(nft.strength, 51);
    assert_eq!(nft.agility, 26);
    assert_eq!(nft.intelligence, 1);
    assert_eq!(nft.luck, 1);
    let request = platform.randomness_requests.get(&1).unwrap();
    assert!(request.fulfilled);
    assert_eq!(request.random_value, Some(random_value));
    assert_eq!(
        platform.fulfill_randomness(1, random_value, [0x34; 64]).unwrap_err(),
        "Request already fulfilled"
    );
    // The highest bytes of block number and time are 0: 0xaa ^ 0xbb = 0x11.
    assert_eq!(platform.roll_dice([0xaa; 32], [0xbb; 32]).unwrap(), 0x11 % 6 + 1);
    platform.block_number = 0x0300_0000_0000_0000;
    platform.block_timestamp = 0x0500_0000_0000_0000;
    assert_eq!(
        platform.roll_dice([0xaa; 32], [0xbb; 32]).unwrap(),
        (0x11u8 ^ 0x03 ^ 0x05) % 6 + 1
    );
}
