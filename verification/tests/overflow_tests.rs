use rust_smart_contracts_vulns::vulnerabilities::overflow::{secure, vulnerable};

#[test]
fn test_vulnerable_overflow() {
    let mut program = vulnerable::TokenProgram::new();
    let account_id = [1u8; 32];

    // Create account with balance close to max
    program.accounts.insert(account_id, vulnerable::TokenAccount { balance: u64::MAX - 10 });

    // The sum wraps around.
    let _ = program.add_tokens(account_id, 20);
}

#[test]
fn test_secure_overflow_prevention() {
    let mut program = secure::TokenProgram::new();
    let account_id = [1u8; 32];

    // Create account with balance close to max
    program.accounts.insert(account_id, secure::TokenAccount { balance: u64::MAX - 10 });

    // This should return an error instead of overflowing
    let result = program.add_tokens(account_id, 20);
    assert!(result.is_err());
    assert_eq!(result.unwrap_err(), "Arithmetic overflow detected");

    // Balance should remain unchanged
    assert_eq!(program.accounts.get(&account_id).unwrap().balance, u64::MAX - 10);
}

#[test]
fn test_overflow_vulnerability() {
    // Test that the vulnerable implementation can be exploited
    let mut program = vulnerable::TokenProgram::new();
    let account_id = [1u8; 32];

    // Create account with balance close to max
    program.accounts.insert(account_id, vulnerable::TokenAccount { balance: u64::MAX - 10 });

    // Now test that the secure implementation prevents this
    let mut secure_program = secure::TokenProgram::new();

    // Create account with balance close to max
    secure_program.accounts.insert(account_id, secure::TokenAccount { balance: u64::MAX - 10 });

    // This should return an error instead of overflowing
    let result = secure_program.add_tokens(account_id, 20);
    assert!(result.is_err());
    assert_eq!(result.unwrap_err(), "Arithmetic overflow detected");
}

#[test]
fn vulnerable_ledger_wraps_around() {
    let mut program = vulnerable::TokenProgram::new();
    let account_id = [1u8; 32];
    program.accounts.insert(account_id, vulnerable::TokenAccount { balance: u64::MAX - 10 });
    assert!(program.add_tokens(account_id, 20).is_ok());
    assert_eq!(program.accounts.get(&account_id).unwrap().balance, 9);
    // A new account is opened with what is added.
    assert!(program.add_tokens([2u8; 32], 5).is_ok());
    assert_eq!(program.accounts.get(&[2u8; 32]).unwrap().balance, 5);
    assert_eq!(program.remove_tokens([3u8; 32], 1).unwrap_err(), "Account not found");
    assert_eq!(program.remove_tokens([2u8; 32], 6).unwrap_err(), "Insufficient balance");
    // 200 and its fee of 2 leave 98 of 300.
    program.accounts.insert([4u8; 32], vulnerable::TokenAccount { balance: 300 });
    assert!(program.remove_tokens([4u8; 32], 200).is_ok());
    assert_eq!(program.accounts.get(&[4u8; 32]).unwrap().balance, 98);
    // The balance covers the amount but not the fee: it wraps around.
    program.accounts.insert([5u8; 32], vulnerable::TokenAccount { balance: 100 });
    assert!(program.remove_tokens([5u8; 32], 100).is_ok());
    assert_eq!(program.accounts.get(&[5u8; 32]).unwrap().balance, u64::MAX);
}

#[test]
fn secure_ledger_checks_fee_and_balance() {
    let mut program = secure::TokenProgram::new();
    assert!(program.add_tokens([2u8; 32], 5).is_ok());
    assert_eq!(program.accounts.get(&[2u8; 32]).unwrap().balance, 5);
    assert!(program.add_tokens([2u8; 32], u64::MAX - 5).is_ok());
    assert_eq!(program.accounts.get(&[2u8; 32]).unwrap().balance, u64::MAX);
    assert_eq!(program.remove_tokens([3u8; 32], 1).unwrap_err(), "Account not found");
    assert_eq!(
        program.remove_tokens([2u8; 32], u64::MAX).unwrap_err(),
        "Arithmetic overflow detected in fee calculation"
    );
    program.accounts.insert([5u8; 32], secure::TokenAccount { balance: 100 });
    assert_eq!(
        program.remove_tokens([5u8; 32], 100).unwrap_err(),
        "Insufficient balance including fees"
    );
    assert_eq!(program.accounts.get(&[5u8; 32]).unwrap().balance, 100);
    program.accounts.insert([4u8; 32], secure::TokenAccount { balance: 300 });
    assert!(program.remove_tokens([4u8; 32], 200).is_ok());
    assert_eq!(program.accounts.get(&[4u8; 32]).unwrap().balance, 98);
}
