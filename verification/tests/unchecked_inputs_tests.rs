use rust_smart_contracts_vulns::vulnerabilities::unchecked_inputs::{secure, vulnerable};

#[test]
fn test_vulnerable_unchecked_inputs() {
    let mut program = vulnerable::BankProgram::new();
    let account_id = [1u8; 32];

    // Create account with 100 tokens
    program.accounts.insert(
        account_id,
        vulnerable::UserAccount { owner: account_id, balance: 100, authorized_delegates: Vec::new() },
    );

    // Zero amount transfer succeeds in vulnerable implementation
    let result = program.transfer(account_id, [2u8; 32], 0);
    assert!(result.is_ok());

    // Self-delegation succeeds in vulnerable implementation
    let result = program.add_delegate(account_id, account_id);
    assert!(result.is_ok());
}

#[test]
fn test_secure_input_validation() {
    let mut program = secure::BankProgram::new();
    let account_id = [1u8; 32];

    // Create account with 100 tokens
    program.accounts.insert(
        account_id,
        secure::UserAccount { owner: account_id, balance: 100, authorized_delegates: Vec::new() },
    );

    // Zero amount transfer fails in secure implementation
    let result = program.transfer(account_id, [2u8; 32], 0);
    assert!(result.is_err());
    assert_eq!(result.unwrap_err(), "Amount must be greater than zero");

    // Self-delegation fails in secure implementation
    let result = program.add_delegate(account_id, account_id);
    assert!(result.is_err());
    assert_eq!(result.unwrap_err(), "Cannot add self as delegate");
}

#[test]
fn test_unchecked_inputs_vulnerability() {
    // Test that the vulnerable implementation accepts invalid inputs
    let mut program = vulnerable::BankProgram::new();
    let account_id = [1u8; 32];

    // Create account
    program.accounts.insert(
        account_id,
        vulnerable::UserAccount { owner: account_id, balance: 100, authorized_delegates: Vec::new() },
    );

    // Zero amount transfer succeeds in vulnerable implementation
    let result = program.transfer(account_id, [2u8; 32], 0);
    assert!(result.is_ok());

    // Now test that the secure implementation validates inputs
    let mut secure_program = secure::BankProgram::new();

    // Create account
    secure_program.accounts.insert(
        account_id,
        secure::UserAccount { owner: account_id, balance: 100, authorized_delegates: Vec::new() },
    );

    // Zero amount transfer fails in secure implementation
    let result = secure_program.transfer(account_id, [2u8; 32], 0);
    assert!(result.is_err());
    assert_eq!(result.unwrap_err(), "Amount must be greater than zero");
}

#[test]
fn vulnerable_bank_moves_amounts() {
    let mut program = vulnerable::BankProgram::new();
    let a = [1u8; 32];
    let b = [2u8; 32];
    assert_eq!(program.transfer(a, b, 1).unwrap_err(), "Sender account not found");
    program.accounts.insert(
        a,
        vulnerable::UserAccount { owner: a, balance: 100, authorized_delegates: Vec::new() },
    );
    assert_eq!(program.transfer(a, b, 101).unwrap_err(), "Insufficient balance");
    assert!(program.transfer(a, b, 40).is_ok());
    assert_eq!(program.accounts.get(&a).unwrap().balance, 60);
    assert_eq!(program.accounts.get(&b).unwrap().balance, 40);
    assert_eq!(program.accounts.get(&b).unwrap().owner, b);
    // A transfer to oneself leaves the balance as it is.
    assert!(program.transfer(a, a, 60).is_ok());
    assert_eq!(program.accounts.get(&a).unwrap().balance, 60);
    assert_eq!(program.add_delegate([9u8; 32], b).unwrap_err(), "Account not found");
    assert!(program.add_delegate(a, b).is_ok());
    assert!(program.add_delegate(a, b).is_ok());
    assert_eq!(program.accounts.get(&a).unwrap().authorized_delegates, vec![b, b]);
}

#[test]
fn secure_bank_checks_in_order() {
    let mut program = secure::BankProgram::new();
    let a = [1u8; 32];
    let b = [2u8; 32];
    assert_eq!(
        program.transfer(a, b, 1_000_000_000_001).unwrap_err(),
        "Amount exceeds maximum transfer limit"
    );
    assert_eq!(program.transfer(a, a, 1).unwrap_err(), "Cannot transfer to self");
    assert_eq!(program.transfer(a, b, 1).unwrap_err(), "Sender account not found");
    program.accounts.insert(
        a,
        secure::UserAccount { owner: a, balance: 100, authorized_delegates: Vec::new() },
    );
    assert_eq!(program.transfer(a, b, 101).unwrap_err(), "Insufficient balance");
    assert!(program.transfer(a, b, 40).is_ok());
    assert_eq!(program.accounts.get(&a).unwrap().balance, 60);
    assert_eq!(program.accounts.get(&b).unwrap().balance, 40);
    assert_eq!(program.add_delegate([9u8; 32], b).unwrap_err(), "Account not found");
    assert!(program.add_delegate(a, b).is_ok());
    assert_eq!(program.add_delegate(a, b).unwrap_err(), "Delegate already authorized");
    for i in 3u8..7 {
        assert!(program.add_delegate(a, [i; 32]).is_ok());
    }
    assert_eq!(program.add_delegate(a, [7u8; 32]).unwrap_err(), "Maximum number of delegates reached");
    assert_eq!(program.accounts.get(&a).unwrap().authorized_delegates.len(), 5);
}
