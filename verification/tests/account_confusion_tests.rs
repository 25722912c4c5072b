use rust_smart_contracts_vulns::vulnerabilities::account_confusion::{secure, vulnerable};

#[test]
fn vulnerable_vault_pays_out_of_any_account() {
    let program_id = [9u8; 32];
    let vault = [8u8; 32];
    let user = [1u8; 32];
    let victim = [2u8; 32];
    let mut program = vulnerable::VaultProgram::new(program_id, vault);
    assert_eq!(program.token_accounts.get(&vault).unwrap().balance, 1_000_000);
    assert_eq!(program.token_accounts.get(&vault).unwrap().owner, program_id);
    assert_eq!(program.withdraw(user, victim, 1).unwrap_err(), "Vault account not found");
    assert_eq!(program.withdraw(user, vault, 1_000_001).unwrap_err(), "Insufficient funds in vault");
    assert!(!program.token_accounts.contains_key(&user));
    assert!(program.withdraw(user, vault, 400).is_ok());
    assert_eq!(program.token_accounts.get(&vault).unwrap().balance, 999_600);
    assert_eq!(program.token_accounts.get(&user).unwrap().balance, 400);
    assert_eq!(program.token_accounts.get(&user).unwrap().owner, user);
    // Any account can be named as the vault.
    program.token_accounts.insert(victim, vulnerable::TokenAccount { owner: victim, balance: 50 });
    assert!(program.withdraw(user, victim, 50).is_ok());
    assert_eq!(program.token_accounts.get(&victim).unwrap().balance, 0);
    assert_eq!(program.token_accounts.get(&user).unwrap().balance, 450);
    // Paying an account out of itself changes nothing.
    assert!(program.withdraw(user, user, 450).is_ok());
    assert_eq!(program.token_accounts.get(&user).unwrap().balance, 450);
}

#[test]
fn secure_vault_pays_out_of_its_own_vault() {
    let program_id = [9u8; 32];
    let vault = [8u8; 32];
    let user = [1u8; 32];
    let mut program = secure::VaultProgram::new(program_id, vault);
    assert_eq!(program.withdraw(user, 1_000_001).unwrap_err(), "Insufficient funds in vault");
    assert!(program.withdraw(user, 400).is_ok());
    assert_eq!(program.token_accounts.get(&vault).unwrap().balance, 999_600);
    assert_eq!(program.token_accounts.get(&user).unwrap().balance, 400);
    program.token_accounts.get_mut(&vault).unwrap().owner = user;
    assert_eq!(program.withdraw(user, 1).unwrap_err(), "Vault account has invalid ownership");
    program.token_accounts.remove(&vault);
    assert_eq!(program.withdraw(user, 1).unwrap_err(), "Vault account not found");
    assert_eq!(program.token_accounts.get(&user).unwrap().balance, 400);
}
