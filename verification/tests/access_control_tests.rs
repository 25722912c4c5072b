use rust_smart_contracts_vulns::vulnerabilities::access_control::{secure, vulnerable};

#[test]
fn test_vulnerable_access_control() {
    let mut protocol = vulnerable::Protocol::new([1u8; 32]); // Admin
    let user = [2u8; 32];
    let _attacker = [3u8; 32];

    // Attacker can change the protocol fee despite not being admin
    let result = protocol.set_fee_percentage(5000); // 50%
    assert!(result.is_ok());
    assert_eq!(protocol.fee_percentage, 5000);

    // Create a user account
    protocol.accounts.insert(
        user,
        vulnerable::UserAccount {
            owner: user,
            balance: 1000,
            settings: vulnerable::UserSettings { auto_compound: false, withdraw_limit: 100 },
        },
    );

    // Attacker can update someone else's account settings by just passing the victim's key
    let result = protocol.update_user_settings(
        user, // account_id
        user, // just passing the correct owner key
        vulnerable::UserSettings { auto_compound: true, withdraw_limit: 1000 },
    );
    assert!(result.is_ok());
}

#[test]
fn test_secure_access_control() {
    let mut protocol = secure::Protocol::new([1u8; 32]); // Admin
    let _user = [2u8; 32];
    let attacker = [3u8; 32];

    let admin_tx = secure::Transaction { caller: [1u8; 32], signature: [0u8; 64], valid: true };
    let attacker_tx = secure::Transaction { caller: attacker, signature: [0u8; 64], valid: true };

    // Attacker cannot change the protocol fee
    let result = protocol.set_fee_percentage(&attacker_tx, 5000);
    assert!(result.is_err());
    assert_eq!(result.unwrap_err(), "Only admin can change fee percentage");

    // Admin can change the fee
    let result = protocol.set_fee_percentage(&admin_tx, 20); // 0.2%
    assert!(result.is_ok());
    assert_eq!(protocol.fee_percentage, 20);

    // Test admin transfer with timelock
    let new_admin = [4u8; 32];
    let new_admin_tx = secure::Transaction { caller: new_admin, signature: [0u8; 64], valid: true };

    // Initiate transfer
    let result = protocol.initiate_admin_transfer(&admin_tx, new_admin);
    assert!(result.is_ok());

    // Cannot complete before timelock expires
    let result = protocol.complete_admin_transfer(&new_admin_tx);
    assert!(result.is_err());
    assert_eq!(result.unwrap_err(), "Timelock has not expired yet");

    // Advance time
    protocol.advance_time(86401); // Just over 24 hours

    // Now can complete the transfer
    let result = protocol.complete_admin_transfer(&new_admin_tx);
    assert!(result.is_ok());
    assert_eq!(protocol.admin, new_admin);
}

#[test]
fn test_access_control() {
    let mut protocol = vulnerable::Protocol::new([1u8; 32]);
    let attacker = [2u8; 32];

    // Attacker can change critical parameters in vulnerable implementation
    let result = protocol.set_fee_percentage(5000);
    assert!(result.is_ok());
    assert_eq!(protocol.fee_percentage, 5000);

    // Secure implementation would enforce access control
    let mut secure_protocol = secure::Protocol::new([1u8; 32]);
    let tx = secure::Transaction { caller: attacker, signature: [0u8; 64], valid: true };

    let result = secure_protocol.set_fee_percentage(&tx, 5000);
    assert!(result.is_err());
}

#[test]
fn vulnerable_protocol_refuses_what_it_says() {
    let mut protocol = vulnerable::Protocol::new([1u8; 32]);
    assert_eq!(protocol.fee_percentage, 10);
    assert_eq!(protocol.set_fee_percentage(10001).unwrap_err(), "Fee percentage too high");
    assert_eq!(protocol.fee_percentage, 10);
    assert!(protocol.set_fee_percentage(10000).is_ok());
    let settings = vulnerable::UserSettings { auto_compound: true, withdraw_limit: 7 };
    assert_eq!(
        protocol.update_user_settings([2u8; 32], [2u8; 32], settings.clone()).unwrap_err(),
        "Account not found"
    );
    protocol.accounts.insert(
        [2u8; 32],
        vulnerable::UserAccount {
            owner: [2u8; 32],
            balance: 5,
            settings: vulnerable::UserSettings { auto_compound: false, withdraw_limit: 1 },
        },
    );
    assert_eq!(
        protocol.update_user_settings([2u8; 32], [3u8; 32], settings.clone()).unwrap_err(),
        "Not the account owner"
    );
    assert!(protocol.update_user_settings([2u8; 32], [2u8; 32], settings).is_ok());
    let account = protocol.accounts.get(&[2u8; 32]).unwrap();
    assert_eq!(account.settings.withdraw_limit, 7);
    assert!(account.settings.auto_compound);
    assert_eq!(account.balance, 5);
    assert_eq!(
        protocol.transfer_account_ownership([9u8; 32], [2u8; 32], [4u8; 32]).unwrap_err(),
        "Account not found"
    );
    assert_eq!(
        protocol.transfer_account_ownership([2u8; 32], [3u8; 32], [4u8; 32]).unwrap_err(),
        "Not the account owner"
    );
    assert!(protocol.transfer_account_ownership([2u8; 32], [2u8; 32], [4u8; 32]).is_ok());
    assert_eq!(protocol.accounts.get(&[2u8; 32]).unwrap().owner, [4u8; 32]);
}

#[test]
fn secure_protocol_checks_in_order() {
    let admin = [1u8; 32];
    let mut protocol = secure::Protocol::new(admin);
    let bad_tx = secure::Transaction { caller: admin, signature: [0u8; 64], valid: false };
    let admin_tx = secure::Transaction { caller: admin, signature: [0u8; 64], valid: true };
    let user_tx = secure::Transaction { caller: [2u8; 32], signature: [0u8; 64], valid: true };
    let signer_tx = secure::Transaction { caller: [5u8; 32], signature: [0u8; 64], valid: true };
    let other_tx = secure::Transaction { caller: [6u8; 32], signature: [0u8; 64], valid: true };
    assert_eq!(protocol.set_fee_percentage(&bad_tx, 1).unwrap_err(), "Invalid transaction");
    assert_eq!(protocol.set_fee_percentage(&admin_tx, 10001).unwrap_err(), "Fee percentage too high");
    let settings = secure::UserSettings { auto_compound: true, withdraw_limit: 1_000_000_000 };
    let too_high = secure::UserSettings { auto_compound: true, withdraw_limit: 1_000_000_001 };
    assert_eq!(
        protocol.update_user_settings(&bad_tx, [2u8; 32], settings.clone()).unwrap_err(),
        "Invalid transaction"
    );
    assert_eq!(
        protocol.update_user_settings(&user_tx, [2u8; 32], settings.clone()).unwrap_err(),
        "Account not found"
    );
    protocol.accounts.insert(
        [2u8; 32],
        secure::UserAccount {
            owner: [2u8; 32],
            balance: 5,
            settings: secure::UserSettings { auto_compound: false, withdraw_limit: 1 },
            authorized_signers: vec![[5u8; 32]],
        },
    );
    assert_eq!(
        protocol.update_user_settings(&other_tx, [2u8; 32], settings.clone()).unwrap_err(),
        "Not authorized to update settings"
    );
    assert_eq!(
        protocol.update_user_settings(&user_tx, [2u8; 32], too_high).unwrap_err(),
        "Withdraw limit too high"
    );
    assert!(protocol.update_user_settings(&signer_tx, [2u8; 32], settings).is_ok());
    assert_eq!(protocol.accounts.get(&[2u8; 32]).unwrap().settings.withdraw_limit, 1_000_000_000);
    assert_eq!(protocol.initiate_admin_transfer(&bad_tx, [4u8; 32]).unwrap_err(), "Invalid transaction");
    assert_eq!(
        protocol.initiate_admin_transfer(&user_tx, [4u8; 32]).unwrap_err(),
        "Only current admin can initiate transfer"
    );
    assert_eq!(
        protocol.complete_admin_transfer(&user_tx).unwrap_err(),
        "Not the pending admin or no admin transfer in progress"
    );
    assert_eq!(protocol.complete_admin_transfer(&bad_tx).unwrap_err(), "Invalid transaction");
    protocol.advance_time(100);
    assert!(protocol.initiate_admin_transfer(&admin_tx, [2u8; 32]).is_ok());
    assert_eq!(protocol.pending_admin, Some([2u8; 32]));
    assert_eq!(protocol.admin_change_time, Some(86500));
    protocol.advance_time(86399);
    assert_eq!(protocol.complete_admin_transfer(&user_tx).unwrap_err(), "Timelock has not expired yet");
    protocol.advance_time(1);
    assert_eq!(
        protocol.complete_admin_transfer(&other_tx).unwrap_err(),
        "Not the pending admin or no admin transfer in progress"
    );
    assert!(protocol.complete_admin_transfer(&user_tx).is_ok());
    assert_eq!(protocol.admin, [2u8; 32]);
    assert_eq!(protocol.pending_admin, None);
    assert_eq!(protocol.admin_change_time, None);
}
