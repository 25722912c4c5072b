use rust_smart_contracts_vulns::vulnerabilities::illicit_fee_collection::{secure, vulnerable};

#[test]
fn test_vulnerable_fee_manipulation() {
    let mut dex = vulnerable::DexProtocol::new([1u8; 32]);
    let user = [2u8; 32];
    let attacker = [3u8; 32];
    let pool_id = 1;

    // Create pool with 0.3% fee
    dex.pools.insert(
        pool_id,
        vulnerable::LiquidityPool {
            token_a_reserves: 1_000_000,
            token_b_reserves: 1_000_000,
            fee_percentage: 30, // 0.3%
            fee_recipient: [1u8; 32], // Admin
            total_supply: 1_000_000,
        },
    );

    // Create user account
    dex.users.insert(
        user,
        vulnerable::UserAccount {
            owner: user,
            token_a_balance: 10_000,
            token_b_balance: 10_000,
            lp_tokens: 0,
        },
    );

    // Attacker can redirect fees to themselves
    let result = dex.set_fee_recipient(pool_id, attacker);
    assert!(result.is_ok());

    // Attacker can drastically increase fees
    let result = dex.set_fee_percentage(pool_id, 5000); // 50% fee!
    assert!(result.is_ok());

    // Verify the changes were applied
    let pool = dex.pools.get(&pool_id).unwrap();
    assert_eq!(pool.fee_percentage, 5000);
    assert_eq!(pool.fee_recipient, attacker);
}

#[test]
fn test_secure_fee_protection() {
    let mut dex = secure::DexProtocol::new([1u8; 32]);
    let user = [2u8; 32];
    let attacker = [3u8; 32];
    let pool_id = 1;

    // Create pool with standard fees
    dex.pools.insert(
        pool_id,
        secure::LiquidityPool {
            token_a_reserves: 1_000_000,
            token_b_reserves: 1_000_000,
            fee_percentage: 30, // 0.3%
            fee_recipient: [1u8; 32], // Admin
            total_supply: 1_000_000,
            protocol_fee_percentage: 5, // 0.05% protocol fee
        },
    );

    // Create user account
    dex.users.insert(
        user,
        secure::UserAccount {
            owner: user,
            token_a_balance: 10_000,
            token_b_balance: 10_000,
            lp_tokens: 0,
        },
    );

    // Attacker cannot change fee recipient
    let result = dex.set_fee_recipient(attacker, pool_id, attacker);
    assert!(result.is_err());
    assert_eq!(result.unwrap_err(), "Only fee admin can change fee recipient");

    // Admin can propose a fee change, but it's timelocked
    let result = dex.propose_fee_change(dex.fee_admin, pool_id, 40); // 0.4%
    assert!(result.is_ok());

    // Admin cannot set excessive fees
    let result = dex.propose_fee_change(dex.fee_admin, pool_id, 200); // 2%
    assert!(result.is_err());
    assert_eq!(result.unwrap_err(), "Fee too high (max 1%)");

    // Fee change not applied until timelock expires
    let result = dex.apply_pending_fee_changes();
    assert!(result.is_ok());
    assert_eq!(result.unwrap(), 0); // No changes applied yet

    // Advance time past the timelock
    dex.advance_time(90000); // 25 hours

    // Now the fee change can be applied
    let result = dex.apply_pending_fee_changes();
    assert!(result.is_ok());
    assert_eq!(result.unwrap(), 1); // 1 change applied

    // Verify the fee was changed
    let pool = dex.pools.get(&pool_id).unwrap();
    assert_eq!(pool.fee_percentage, 40); // Updated to 0.4%
    assert_eq!(pool.fee_recipient, [1u8; 32]); // Still the admin
}

#[test]
fn vulnerable_swap_keeps_back_a_hidden_fee() {
    let mut dex = vulnerable::DexProtocol::new([1u8; 32]);
    let user = [2u8; 32];
    assert_eq!(dex.set_fee_recipient(1, user).unwrap_err(), "Pool not found");
    assert_eq!(dex.set_fee_percentage(1, 1).unwrap_err(), "Pool not found");
    assert_eq!(dex.swap(user, 1, 10).unwrap_err(), "User not found");
    dex.users.insert(
        user,
        vulnerable::UserAccount {
            owner: user,
            token_a_balance: 10_000,
            token_b_balance: 10_000,
            lp_tokens: 0,
        },
    );
    assert_eq!(dex.swap(user, 1, 10).unwrap_err(), "Pool not found");
    dex.pools.insert(
        1,
        vulnerable::LiquidityPool {
            token_a_reserves: 1_000_000,
            token_b_reserves: 1_000_000,
            fee_percentage: 30,
            fee_recipient: [1u8; 32],
            total_supply: 1_000_000,
        },
    );
    assert_eq!(dex.set_fee_percentage(1, 5001).unwrap_err(), "Fee too high (max 50%)");
    assert_eq!(dex.swap(user, 1, 10_001).unwrap_err(), "Insufficient token A balance");
    // fee 30, priced reserves 1_009_970, new B reserves 990_128, out 9_872,
    // hidden fee 49, paid 9_823.
    assert_eq!(dex.swap(user, 1, 10_000).unwrap(), 9_823);
    let account = dex.users.get(&user).unwrap();
    assert_eq!(account.token_a_balance, 0);
    assert_eq!(account.token_b_balance, 19_823);
    let pool = dex.pools.get(&1).unwrap();
    assert_eq!(pool.token_a_reserves, 1_010_000);
    assert_eq!(pool.token_b_reserves, 990_128);
}

#[test]
fn secure_swap_charges_what_it_says() {
    let admin = [1u8; 32];
    let mut dex = secure::DexProtocol::new(admin);
    let user = [2u8; 32];
    let recipient = [7u8; 32];
    assert_eq!(dex.swap(user, 1, 10).unwrap_err(), "User not found");
    dex.users.insert(
        user,
        secure::UserAccount {
            owner: user,
            token_a_balance: 10_000,
            token_b_balance: 10_000,
            lp_tokens: 0,
        },
    );
    assert_eq!(dex.swap(user, 1, 10).unwrap_err(), "Pool not found");
    assert_eq!(dex.set_fee_recipient(admin, 1, recipient).unwrap_err(), "Pool not found");
    assert_eq!(
        dex.propose_fee_change(user, 1, 1).unwrap_err(),
        "Only fee admin can propose fee changes"
    );
    assert_eq!(dex.propose_fee_change(admin, 1, 1).unwrap_err(), "Pool not found");
    dex.pools.insert(
        1,
        secure::LiquidityPool {
            token_a_reserves: 1_000_000,
            token_b_reserves: 1_000_000,
            fee_percentage: 30,
            fee_recipient: admin,
            total_supply: 1_000_000,
            protocol_fee_percentage: 5,
        },
    );
    assert!(dex.set_fee_recipient(admin, 1, recipient).is_ok());
    assert_eq!(dex.swap(user, 1, 10_001).unwrap_err(), "Insufficient token A balance");
    // fees 30 and 5, priced reserves 1_009_965, new B reserves 990_133,
    // out 9_867.
    assert_eq!(dex.swap(user, 1, 10_000).unwrap(), 9_867);
    let account = dex.users.get(&user).unwrap();
    assert_eq!(account.token_a_balance, 0);
    assert_eq!(account.token_b_balance, 19_867);
    let pool = dex.pools.get(&1).unwrap();
    assert_eq!(pool.token_a_reserves, 1_009_995);
    assert_eq!(pool.token_b_reserves, 990_133);
    let paid = dex.users.get(&recipient).unwrap();
    assert_eq!(paid.owner, recipient);
    assert_eq!(paid.token_a_balance, 5);
    assert_eq!(paid.token_b_balance, 0);
}

#[test]
fn secure_fee_changes_wait_and_keep_their_order() {
    let admin = [1u8; 32];
    let mut dex = secure::DexProtocol::new(admin);
    dex.pools.insert(
        1,
        secure::LiquidityPool {
            token_a_reserves: 1,
            token_b_reserves: 1,
            fee_percentage: 30,
            fee_recipient: admin,
            total_supply: 1,
            protocol_fee_percentage: 5,
        },
    );
    assert!(dex.propose_fee_change(admin, 1, 40).is_ok());
    dex.advance_time(10);
    assert!(dex.propose_fee_change(admin, 1, 50).is_ok());
    dex.advance_time(10);
    assert!(dex.propose_fee_change(admin, 1, 100).is_ok());
    assert_eq!(dex.pending_fee_changes.len(), 3);
    assert_eq!(dex.pending_fee_changes[1].timestamp, 10);
    assert_eq!(dex.pending_fee_changes[1].effective_time, 86410);
    dex.advance_time(86390);
    // The first two have waited long enough; the later one of them wins.
    assert_eq!(dex.apply_pending_fee_changes().unwrap(), 2);
    assert_eq!(dex.pools.get(&1).unwrap().fee_percentage, 50);
    assert_eq!(dex.pending_fee_changes.len(), 1);
    assert_eq!(dex.pending_fee_changes[0].new_fee, 100);
    // A change for a pool that is gone is dropped without being counted.
    dex.pools.remove(&1);
    dex.advance_time(10);
    assert_eq!(dex.apply_pending_fee_changes().unwrap(), 0);
    assert_eq!(dex.pending_fee_changes.len(), 0);
}
