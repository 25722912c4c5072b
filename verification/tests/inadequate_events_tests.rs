use rust_smart_contracts_vulns::vulnerabilities::inadequate_events::{secure, vulnerable};

#[test]
fn vulnerable_program_leaves_no_record() {
    let admin = [1u8; 32];
    let mut program = vulnerable::Program::new(admin);
    assert_eq!(program.treasury_balance, 1_000_000);
    assert_eq!(program.update_admin([2u8; 32], [2u8; 32]).unwrap_err(), "Unauthorized");
    assert_eq!(program.withdraw([2u8; 32], [3u8; 32], 1).unwrap_err(), "Unauthorized");
    assert_eq!(program.withdraw(admin, [3u8; 32], 1_000_001).unwrap_err(), "Insufficient funds");
    assert!(program.withdraw(admin, [3u8; 32], 600).is_ok());
    assert!(program.withdraw(admin, [3u8; 32], 400).is_ok());
    assert_eq!(program.treasury_balance, 999_000);
    assert_eq!(*program.accounts.get(&[3u8; 32]).unwrap(), 1_000);
    assert!(program.update_admin(admin, [2u8; 32]).is_ok());
    assert_eq!(program.config.admin, [2u8; 32]);
    assert_eq!(program.withdraw(admin, [3u8; 32], 1).unwrap_err(), "Unauthorized");
}

#[test]
fn secure_program_records_what_it_does() {
    let admin = [1u8; 32];
    let mut program = secure::Program::new(admin);
    assert_eq!(program.update_admin([2u8; 32], [2u8; 32], 5).unwrap_err(), "Unauthorized");
    assert_eq!(program.withdraw([2u8; 32], [3u8; 32], 1, 5).unwrap_err(), "Unauthorized");
    assert_eq!(
        program.withdraw(admin, [3u8; 32], 1_000_001, 5).unwrap_err(),
        "Insufficient funds"
    );
    assert!(program.admin_events.is_empty());
    assert!(program.withdrawal_events.is_empty());
    assert!(program.withdraw(admin, [3u8; 32], 600, 7).is_ok());
    assert_eq!(program.treasury_balance, 999_400);
    assert_eq!(*program.accounts.get(&[3u8; 32]).unwrap(), 600);
    assert_eq!(program.withdrawal_events.len(), 1);
    assert_eq!(program.withdrawal_events[0].initiator, admin);
    assert_eq!(program.withdrawal_events[0].recipient, [3u8; 32]);
    assert_eq!(program.withdrawal_events[0].amount, 600);
    assert_eq!(program.withdrawal_events[0].timestamp, 7);
    assert!(program.update_admin(admin, [2u8; 32], 9).is_ok());
    assert_eq!(program.config.admin, [2u8; 32]);
    assert_eq!(program.admin_events.len(), 1);
    assert_eq!(program.admin_events[0].previous_admin, admin);
    assert_eq!(program.admin_events[0].new_admin, [2u8; 32]);
    assert_eq!(program.admin_events[0].timestamp, 9);
}
