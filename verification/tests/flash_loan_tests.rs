use rust_smart_contracts_vulns::vulnerabilities::flash_loan::{secure, vulnerable};

fn vulnerable_protocol() -> vulnerable::LendingProtocol {
    let mut protocol = vulnerable::LendingProtocol::new();
    protocol.lending_pools.insert(
        "USDC".to_string(),
        vulnerable::LendingPool { token_reserves: 1_000_000, name: "USDC Pool".to_string() },
    );
    protocol.dex_pools.insert(
        "TOKEN_USDC".to_string(),
        vulnerable::DexPool {
            token_a: "TOKEN".to_string(),
            token_b: "USDC".to_string(),
            token_a_reserves: 1_000_000,
            token_b_reserves: 1_000_000,
        },
    );
    protocol
}

fn secure_protocol() -> secure::LendingProtocol {
    let mut protocol = secure::LendingProtocol::new();
    protocol.lending_pools.insert(
        "USDC".to_string(),
        secure::LendingPool {
            token_reserves: 1_000_000,
            name: "USDC Pool".to_string(),
            flash_loan_fee: 30,
        },
    );
    protocol.dex_pools.insert(
        "TOKEN_USDC".to_string(),
        secure::DexPool {
            token_a: "TOKEN".to_string(),
            token_b: "USDC".to_string(),
            token_a_reserves: 1_000_000,
            token_b_reserves: 1_000_000,
        },
    );
    for _ in 0..24 {
        protocol.update_oracle_price("TOKEN", 1_000_000);
        protocol.update_oracle_price("USDC", 1_000_000);
        protocol.advance_oracle_time(3600);
    }
    protocol
}

#[test]
fn vulnerable_flash_loan_that_is_not_paid_back_fails() {
    let mut protocol = vulnerable_protocol();
    let user = [1u8; 32];
    let position_id = protocol.create_position(user, "TOKEN", 100_000, "USDC", 80_000);
    assert_eq!(position_id, 1);
    let attacker = [2u8; 32];
    let result = protocol.liquidate_position(position_id, attacker);
    assert_eq!(result.unwrap_err(), "Position is not liquidatable");

    let result = protocol.flash_loan("USDC", 900_000, |protocol: &mut vulnerable::LendingProtocol| {
        // Selling USDC into the pool makes TOKEN dearer, not cheaper.
        let out = protocol.dex_pools.get_mut("TOKEN_USDC").unwrap().swap("USDC", 900_000);
        assert_eq!(out, 473_685);
        assert_eq!(protocol.get_token_price("TOKEN"), 3_610_005);
        assert_eq!(protocol.get_token_price("USDC"), 277_007);
        let liquidation = protocol.liquidate_position(position_id, attacker);
        assert_eq!(liquidation.unwrap_err(), "Position is not liquidatable");
        let back = protocol.dex_pools.get_mut("TOKEN_USDC").unwrap().swap("TOKEN", 900_000);
        assert_eq!(back, 1_198_894);
        Ok(())
    });
    // Nothing came back into the lending pool.
    assert_eq!(result.unwrap_err(), "Flash loan not repaid");
    assert!(protocol.positions.contains_key(&position_id));
    assert_eq!(protocol.lending_pools.get("USDC").unwrap().token_reserves, 100_000);
}

#[test]
fn vulnerable_flash_loan_lets_a_manipulated_price_liquidate() {
    let mut protocol = vulnerable_protocol();
    let position_id = protocol.create_position([1u8; 32], "TOKEN", 100_000, "USDC", 80_000);
    let attacker = [2u8; 32];
    let result = protocol.flash_loan("USDC", 900_000, |protocol: &mut vulnerable::LendingProtocol| {
        // Selling TOKEN into the pool makes it cheap.
        let out = protocol.dex_pools.get_mut("TOKEN_USDC").unwrap().swap("TOKEN", 900_000);
        assert_eq!(out, 473_685);
        assert_eq!(protocol.get_token_price("TOKEN"), 277_007);
        assert!(protocol.liquidate_position(position_id, attacker).is_ok());
        // The loan is paid back.
        protocol.lending_pools.get_mut("USDC").unwrap().token_reserves += 900_000;
        Ok(())
    });
    assert!(result.is_ok());
    assert!(!protocol.positions.contains_key(&position_id));
    assert_eq!(protocol.lending_pools.get("USDC").unwrap().token_reserves, 1_000_000);
}

#[test]
fn vulnerable_flash_loan_errors_and_rollback() {
    let mut protocol = vulnerable_protocol();
    let result = protocol.flash_loan("DAI", 1, |_: &mut vulnerable::LendingProtocol| Ok(()));
    assert_eq!(result.unwrap_err(), "Pool not found");
    let result =
        protocol.flash_loan("USDC", 1_000_001, |_: &mut vulnerable::LendingProtocol| Ok(()));
    assert_eq!(result.unwrap_err(), "Insufficient liquidity for flash loan");
    // Work that fails gets its failure passed on, and the amount put back.
    let result = protocol.flash_loan("USDC", 400_000, |protocol: &mut vulnerable::LendingProtocol| {
        assert_eq!(protocol.lending_pools.get("USDC").unwrap().token_reserves, 600_000);
        Err("borrower gave up")
    });
    assert_eq!(result.unwrap_err(), "borrower gave up");
    assert_eq!(protocol.lending_pools.get("USDC").unwrap().token_reserves, 1_000_000);
    let result = protocol.flash_loan("USDC", 400_000, |protocol: &mut vulnerable::LendingProtocol| {
        protocol.lending_pools.remove("USDC");
        Ok(())
    });
    assert_eq!(result.unwrap_err(), "Pool disappeared during flash loan");
    assert_eq!(protocol.lend("USDC", 1).unwrap_err(), "Pool not found");
}

#[test]
fn vulnerable_prices_come_from_the_first_pool() {
    let mut protocol = vulnerable_protocol();
    assert_eq!(protocol.get_token_price("DAI"), 1_000_000);
    protocol.dex_pools.insert(
        "DAI_TOKEN".to_string(),
        vulnerable::DexPool {
            token_a: "DAI".to_string(),
            token_b: "TOKEN".to_string(),
            token_a_reserves: 500,
            token_b_reserves: 1_000,
        },
    );
    assert_eq!(protocol.get_token_price("DAI"), 2_000_000);
    // TOKEN is traded by both pools: the one that was added first counts.
    assert_eq!(protocol.get_token_price("TOKEN"), 1_000_000);
    let pool = protocol.dex_pools.get("DAI_TOKEN").unwrap();
    assert_eq!(pool.get_price("TOKEN", "DAI"), 500_000);
    assert_eq!(pool.get_price("TOKEN", "USDC"), 0);
    let mut pool = pool.clone();
    assert_eq!(pool.swap("USDC", 10), 0);
    assert_eq!(pool.token_a_reserves, 500);
    assert_eq!(protocol.liquidate_position(9, [2u8; 32]).unwrap_err(), "Position not found");
}

#[test]
fn secure_flash_loan_is_limited_to_half_the_pool() {
    let mut protocol = secure_protocol();
    let user = [1u8; 32];
    let position_id = protocol.create_position(user, "TOKEN", 100_000, "USDC", 80_000);
    let attacker = [2u8; 32];
    let result = protocol.liquidate_position(position_id, attacker);
    assert_eq!(result.unwrap_err(), "Position is not liquidatable");

    let result =
        protocol.flash_loan("USDC", 900_000, |_: &mut secure::LendingProtocol| Ok(()));
    assert_eq!(result.unwrap_err(), "Flash loan exceeds maximum allowed amount");
    assert_eq!(protocol.lending_pools.get("USDC").unwrap().token_reserves, 1_000_000);
    assert!(protocol.positions.contains_key(&position_id));
}

#[test]
fn secure_flash_loan_asks_for_its_fee() {
    let mut protocol = secure_protocol();
    let position_id = protocol.create_position([1u8; 32], "TOKEN", 100_000, "USDC", 80_000);
    let attacker = [2u8; 32];
    let result = protocol.flash_loan("DAI", 1, |_: &mut secure::LendingProtocol| Ok(()));
    assert_eq!(result.unwrap_err(), "Pool not found");
    // Paid back without the fee of 1500.
    let result = protocol.flash_loan("USDC", 500_000, |protocol: &mut secure::LendingProtocol| {
        assert_eq!(protocol.lending_pools.get("USDC").unwrap().token_reserves, 500_000);
        protocol.lending_pools.get_mut("USDC").unwrap().token_reserves += 500_000 + 1_499;
        Ok(())
    });
    assert_eq!(result.unwrap_err(), "Flash loan not repaid with fee");
    protocol.lending_pools.get_mut("USDC").unwrap().token_reserves = 1_000_000;
    // Paid back with the fee; a price that falls within the loan does not
    // liquidate the position.
    let result = protocol.flash_loan("USDC", 500_000, |protocol: &mut secure::LendingProtocol| {
        protocol.update_oracle_price("TOKEN", 500_000);
        let liquidation = protocol.liquidate_position(position_id, attacker);
        assert_eq!(
            liquidation.unwrap_err(),
            "Suspicious price movement detected, liquidation blocked"
        );
        protocol.lending_pools.get_mut("USDC").unwrap().token_reserves += 500_000 + 1_500;
        Ok(())
    });
    assert!(result.is_ok());
    assert!(protocol.positions.contains_key(&position_id));
    assert_eq!(protocol.lending_pools.get("USDC").unwrap().token_reserves, 1_001_500);
    // Work that fails: the reserves are set back.
    let result = protocol.flash_loan("USDC", 10, |protocol: &mut secure::LendingProtocol| {
        protocol.lending_pools.get_mut("USDC").unwrap().token_reserves = 5;
        Err("borrower gave up")
    });
    assert_eq!(result.unwrap_err(), "borrower gave up");
    assert_eq!(protocol.lending_pools.get("USDC").unwrap().token_reserves, 1_001_500);
    let result = protocol.flash_loan("USDC", 10, |protocol: &mut secure::LendingProtocol| {
        protocol.lending_pools.remove("USDC");
        Ok(())
    });
    assert_eq!(result.unwrap_err(), "Pool disappeared during flash loan");
}

#[test]
fn secure_oracle_keeps_a_day_of_prices() {
    let mut oracle = secure::PriceOracle::new();
    assert_eq!(oracle.get_spot_price("TOKEN"), None);
    assert_eq!(oracle.get_twap("TOKEN", 3600), None);
    oracle.update_price("TOKEN", 10);
    oracle.advance_time(100);
    oracle.update_price("TOKEN", 20);
    oracle.advance_time(100);
    oracle.update_price("TOKEN", 40);
    assert_eq!(oracle.get_spot_price("TOKEN"), Some(40));
    assert_eq!(oracle.get_twap("TOKEN", 3600), Some(23));
    assert_eq!(oracle.get_twap("TOKEN", 100), Some(30));
    assert_eq!(oracle.get_twap("TOKEN", 0), Some(40));
    oracle.advance_time(86300);
    // Now at 86500: only the entry of time 0 is older than a day.
    oracle.update_price("TOKEN", 50);
    let history: Vec<(u64, u64)> =
        oracle.token_prices.get("TOKEN").unwrap().price_history.iter().cloned().collect();
    assert_eq!(history, vec![(100, 20), (200, 40), (86500, 50)]);
    oracle.advance_time(1);
    oracle.update_price("TOKEN", 60);
    let history: Vec<(u64, u64)> =
        oracle.token_prices.get("TOKEN").unwrap().price_history.iter().cloned().collect();
    assert_eq!(history, vec![(200, 40), (86500, 50), (86501, 60)]);
    oracle.advance_time(10);
    assert_eq!(oracle.get_twap("TOKEN", 5), None);
}

#[test]
fn secure_liquidation_needs_sound_prices() {
    let mut protocol = secure::LendingProtocol::new();
    assert_eq!(protocol.liquidate_position(1, [2u8; 32]).unwrap_err(), "Position not found");
    let position_id = protocol.create_position([1u8; 32], "TOKEN", 100_000, "USDC", 80_000);
    assert_eq!(
        protocol.liquidate_position(position_id, [2u8; 32]).unwrap_err(),
        "Insufficient price data for collateral token"
    );
    protocol.update_oracle_price("TOKEN", 1_000_000);
    assert_eq!(
        protocol.liquidate_position(position_id, [2u8; 32]).unwrap_err(),
        "Insufficient price data for borrowed token"
    );
    protocol.update_oracle_price("USDC", 1_000_000);
    assert_eq!(
        protocol.liquidate_position(position_id, [2u8; 32]).unwrap_err(),
        "Position is not liquidatable"
    );
    // The average of 1.0 and 0.8 is 0.9; the latest price 0.8 lies more than
    // a tenth of that below it.
    protocol.update_oracle_price("TOKEN", 800_000);
    assert_eq!(
        protocol.liquidate_position(position_id, [2u8; 32]).unwrap_err(),
        "Suspicious price movement detected, liquidation blocked"
    );
    // An hour and more later only the low price counts: 80_000 < 88_000.
    protocol.advance_oracle_time(3601);
    protocol.update_oracle_price("TOKEN", 800_000);
    protocol.update_oracle_price("USDC", 1_000_000);
    assert!(protocol.liquidate_position(position_id, [2u8; 32]).is_ok());
    assert!(!protocol.positions.contains_key(&position_id));
}
