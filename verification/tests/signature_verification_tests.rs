use rust_smart_contracts_vulns::vulnerabilities::signature_verification::{secure, vulnerable};

#[test]
fn vulnerable_wallet_signs_the_amount_only() {
    assert_eq!(vulnerable::signed_message(0x0102_0304), vec![4, 3, 2, 1, 0, 0, 0, 0]);
    let mut wallet = vulnerable::WalletProgram::new();
    let from = [1u8; 32];
    let to = [2u8; 32];
    assert_eq!(wallet.transfer(from, to, 1, [0u8; 64]).unwrap_err(), "Account not found");
    wallet.accounts.insert(from, vulnerable::WalletAccount { owner: from, balance: 100 });
    assert_eq!(wallet.transfer(from, to, 101, [0u8; 64]).unwrap_err(), "Insufficient funds");
    assert!(wallet.transfer(from, to, 30, [0u8; 64]).is_ok());
    // The same signature serves for another recipient.
    assert!(wallet.transfer(from, [3u8; 32], 30, [0u8; 64]).is_ok());
    assert_eq!(wallet.accounts.get(&from).unwrap().balance, 40);
    assert_eq!(wallet.accounts.get(&to).unwrap().balance, 30);
    assert_eq!(wallet.accounts.get(&to).unwrap().owner, to);
    assert_eq!(wallet.accounts.get(&[3u8; 32]).unwrap().balance, 30);
    assert!(wallet.transfer(from, from, 40, [0u8; 64]).is_ok());
    assert_eq!(wallet.accounts.get(&from).unwrap().balance, 40);
}

#[test]
fn secure_wallet_takes_each_nonce_once() {
    let message = secure::signed_message(&[1u8; 32], &[2u8; 32], 0x0102, 3);
    let mut expected = vec![1u8; 32];
    expected.extend_from_slice(&[2u8; 32]);
    expected.extend_from_slice(&[2, 1, 0, 0, 0, 0, 0, 0]);
    expected.extend_from_slice(&[3, 0, 0, 0, 0, 0, 0, 0]);
    assert_eq!(message, expected);
    let mut wallet = secure::WalletProgram::new();
    let from = [1u8; 32];
    let to = [2u8; 32];
    assert_eq!(wallet.transfer(from, to, 1, 1, [0u8; 64]).unwrap_err(), "Account not found");
    wallet.accounts.insert(from, secure::WalletAccount { owner: from, balance: 100 });
    assert_eq!(wallet.transfer(from, to, 101, 1, [0u8; 64]).unwrap_err(), "Insufficient funds");
    assert_eq!(
        wallet.transfer(from, to, 30, 0, [0u8; 64]).unwrap_err(),
        "Invalid nonce - potential replay attack"
    );
    assert!(wallet.transfer(from, to, 30, 5, [0u8; 64]).is_ok());
    assert_eq!(*wallet.nonces.get(&from).unwrap(), 5);
    assert_eq!(
        wallet.transfer(from, to, 30, 5, [0u8; 64]).unwrap_err(),
        "Invalid nonce - potential replay attack"
    );
    assert_eq!(wallet.accounts.get(&from).unwrap().balance, 70);
    assert_eq!(wallet.accounts.get(&to).unwrap().balance, 30);
    assert!(wallet.transfer(from, to, 30, 6, [0u8; 64]).is_ok());
    assert_eq!(wallet.accounts.get(&to).unwrap().balance, 60);
    assert_eq!(*wallet.nonces.get(&from).unwrap(), 6);
}
