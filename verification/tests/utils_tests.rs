use rust_smart_contracts_vulns::collections::address_map::{
    contains_address, same_address, AddressMap,
};
use rust_smart_contracts_vulns::collections::name_map::NameMap;
use rust_smart_contracts_vulns::utils::display::{format_address, format_amount};
use rust_smart_contracts_vulns::utils::runtime::Runtime;
use rust_smart_contracts_vulns::utils::{generate_address, has_privilege, Account, MockBlockchain};
use rust_smart_contracts_vulns::vulnerabilities::reentrancy::ReentrancyVulnerability;
use rust_smart_contracts_vulns::vulnerabilities::storage_management::StorageManagementVulnerability;
use rust_smart_contracts_vulns::vulnerabilities::Vulnerability;
use rust_smart_contracts_vulns::{Error, OverflowVulnerability, VERSION};

#[test]
fn accounts_start_empty() {
    let account = Account::new([3u8; 32]);
    assert_eq!(account.address, [3u8; 32]);
    assert_eq!(account.balance, 0);
    assert_eq!(account.owner, None);
    assert!(account.data.is_empty());
    assert!(!account.executable);
    let account = account.with_balance(77);
    assert_eq!(account.balance, 77);
    assert_eq!(account.address, [3u8; 32]);
}

#[test]
fn mock_blockchain_keeps_accounts_by_address() {
    let mut chain = MockBlockchain::new();
    assert!(chain.get_account(&[1u8; 32]).is_none());
    assert!(chain.get_account_mut(&[1u8; 32]).is_none());
    chain.add_account(Account::new([1u8; 32]).with_balance(5));
    chain.add_account(Account::new([2u8; 32]).with_balance(6));
    assert_eq!(chain.get_account(&[1u8; 32]).unwrap().balance, 5);
    chain.get_account_mut(&[1u8; 32]).unwrap().balance = 9;
    assert_eq!(chain.get_account(&[1u8; 32]).unwrap().balance, 9);
    assert_eq!(chain.get_account(&[2u8; 32]).unwrap().balance, 6);
    chain.add_account(Account::new([1u8; 32]));
    assert_eq!(chain.get_account(&[1u8; 32]).unwrap().balance, 0);
    chain.advance_block();
    let shown = format!("{:?}", chain);
    assert!(shown.contains("current_block: 2"));
    assert!(shown.contains("timestamp: 1621500001"));
    let shown = format!("{:?}", MockBlockchain::default());
    assert!(shown.contains("current_block: 0"));
    assert!(shown.contains("timestamp: 0"));
}

#[test]
fn runtime_knows_its_caller() {
    let runtime = Runtime::new();
    assert_eq!(runtime.current_caller, [0u8; 32]);
    let runtime = runtime.with_caller([4u8; 32]);
    assert_eq!(runtime.current_caller, [4u8; 32]);
    assert!(runtime.blockchain.get_account(&[4u8; 32]).is_none());
}

#[test]
fn example_address_counts_in_sevens() {
    let address = generate_address();
    for i in 0..32 {
        assert_eq!(address[i], (i * 7) as u8);
    }
    assert_eq!(address[31], 217);
    assert_eq!(generate_address(), address);
}

#[test]
fn privilege_is_looked_up_by_first_byte() {
    let address = generate_address();
    // 'F' is 70, which is 7 * 10.
    assert!(has_privilege(&address, "F"));
    assert!(has_privilege(&address, "Freeze"));
    assert!(!has_privilege(&address, "A"));
    // The empty name is looked up by 0, the first byte of the address.
    assert!(has_privilege(&address, ""));
    assert!(!has_privilege(&[1u8; 32], ""));
    // 'é' starts with the byte 0xc3 = 195, which is no multiple of 7 below 218.
    assert!(!has_privilege(&address, "é"));
    let mut other = [0u8; 32];
    other[31] = 0xc3;
    assert!(has_privilege(&other, "é"));
}

#[test]
fn addresses_and_amounts_are_written_out() {
    assert_eq!(
        format_address(&[0u8; 32]),
        "0x0000000000000000000000000000000000000000000000000000000000000000"
    );
    let mut address = [0u8; 32];
    address[0] = 0x0f;
    address[1] = 0xa0;
    address[31] = 0xff;
    assert_eq!(
        format_address(&address),
        "0x0fa00000000000000000000000000000000000000000000000000000000000ff"
    );
    assert_eq!(format_amount(0, "SOL"), "0 SOL");
    assert_eq!(format_amount(1_000_000, "USDC"), "1000000 USDC");
    assert_eq!(format_amount(u64::MAX, ""), "18446744073709551615 ");
}

#[test]
fn address_map_behaves_as_a_map_in_insertion_order() {
    let mut map: AddressMap<u64> = AddressMap::new();
    assert_eq!(map.len(), 0);
    assert_eq!(map.insert([2u8; 32], 20), None);
    assert_eq!(map.insert([1u8; 32], 10), None);
    assert_eq!(map.insert([3u8; 32], 30), None);
    assert_eq!(map.insert([1u8; 32], 11), Some(10));
    assert_eq!(map.len(), 3);
    assert_eq!(map.keys(), vec![[2u8; 32], [1u8; 32], [3u8; 32]]);
    assert_eq!(map.get(&[1u8; 32]), Some(&11));
    assert_eq!(map.get(&[4u8; 32]), None);
    assert!(map.contains_key(&[3u8; 32]));
    assert!(!map.contains_key(&[4u8; 32]));
    *map.get_mut(&[3u8; 32]).unwrap() += 1;
    assert_eq!(map.get(&[3u8; 32]), Some(&31));
    assert!(map.get_mut(&[4u8; 32]).is_none());
    assert_eq!(map.remove(&[2u8; 32]), Some(20));
    assert_eq!(map.remove(&[2u8; 32]), None);
    assert_eq!(map.keys(), vec![[1u8; 32], [3u8; 32]]);
    let copy = map.clone();
    assert_eq!(copy.keys(), map.keys());
    assert_eq!(copy.get(&[3u8; 32]), Some(&31));
    let mut nearly = [1u8; 32];
    nearly[31] = 2;
    assert!(!same_address(&[1u8; 32], &nearly));
    assert!(same_address(&nearly, &nearly));
    assert!(contains_address(&vec![[1u8; 32], nearly], &nearly));
    assert!(!contains_address(&vec![[1u8; 32]], &nearly));
}

#[test]
fn name_map_behaves_as_a_map_in_insertion_order() {
    let mut map: NameMap<u64> = NameMap::new();
    assert_eq!(map.insert("b".to_string(), 20), None);
    assert_eq!(map.insert("a".to_string(), 10), None);
    assert_eq!(map.insert("c".to_string(), 30), None);
    assert_eq!(map.insert("a".to_string(), 11), Some(10));
    assert_eq!(map.len(), 3);
    assert_eq!(map.keys(), vec!["b".to_string(), "a".to_string(), "c".to_string()]);
    assert_eq!(map.get("a"), Some(&11));
    assert_eq!(map.get("ab"), None);
    assert!(map.contains_key("c"));
    *map.get_mut("c").unwrap() += 1;
    assert_eq!(map.get("c"), Some(&31));
    assert_eq!(map.remove("b"), Some(20));
    assert_eq!(map.remove("b"), None);
    assert_eq!(map.keys(), vec!["a".to_string(), "c".to_string()]);
}

#[test]
fn errors_say_what_they_are() {
    assert_eq!(Error::Reentrancy.message(), "Reentrancy attack detected");
    assert_eq!(Error::Overflow.message(), "Integer overflow detected");
    assert_eq!(Error::InvalidInput.message(), "Invalid input detected");
    assert_eq!(Error::OracleManipulation.message(), "Oracle manipulation detected");
    assert_eq!(Error::AccessControl.message(), "Access control violation");
    assert_eq!(Error::DoS.message(), "Denial of service condition");
    assert_eq!(Error::IllicitFee.message(), "Illicit fee detected");
    assert_eq!(Error::FlashLoan.message(), "Flash loan attack detected");
    assert_eq!(Error::LogicError.message(), "Logic error detected");
    assert_eq!(Error::RandomManipulation.message(), "Random manipulation detected");
    assert_eq!(
        Error::SignatureVerification.message(),
        "Signature verification bypass detected"
    );
    assert_eq!(Error::AccountConfusion.message(), "Account confusion detected");
    assert_eq!(Error::FrontRunning.message(), "Front-running detected");
    assert_eq!(Error::InadequateEvents.message(), "Inadequate event emission detected");
    assert_eq!(Error::StorageManagement.message(), "Storage management issue detected");
    assert_eq!(Error::Generic("disk full".to_string()).message(), "Generic error: disk full");
    assert_eq!(VERSION, "0.1.0");
}

#[test]
fn catalog_entries_describe_their_class() {
    let entry = ReentrancyVulnerability;
    assert_eq!(entry.name(), "Reentrancy Vulnerability");
    assert!(entry.description().starts_with("Occurs when a contract function can be re-entered"));
    assert!(entry.description().contains("completes, allowing an attacker"));
    assert_eq!(entry.affected_platforms(), vec!["Solana", "NEAR", "Polkadot"]);
    assert!(entry.exploit_example().contains("transfer_tokens(ctx.accounts.recipient.key, amount)?;"));
    assert_eq!(entry.detection_methods().len(), 5);
    assert_eq!(entry.detection_methods()[1], "Check if the contract uses a reentrancy guard");
    assert_eq!(entry.remediation().len(), 5);
    assert_eq!(
        entry.remediation()[4],
        "Carefully consider which accounts have invocation privileges"
    );
    let entries: Vec<Box<dyn Vulnerability>> =
        vec![Box::new(OverflowVulnerability), Box::new(StorageManagementVulnerability)];
    for entry in entries.iter() {
        assert!(!entry.name().is_empty());
        assert!(!entry.description().is_empty());
        assert!(!entry.affected_platforms().is_empty());
        assert!(!entry.exploit_example().is_empty());
        assert!(!entry.detection_methods().is_empty());
        assert!(!entry.remediation().is_empty());
    }
}
