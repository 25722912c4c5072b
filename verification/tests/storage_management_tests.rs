use rust_smart_contracts_vulns::vulnerabilities::storage_management::{secure, vulnerable};

#[test]
fn state_is_written_out_and_read_back() {
    let state = vulnerable::State { counter: 0x0102, values: vec![7, 0x0a0b_0c0d] };
    let data = vulnerable::serialize_state(&state).unwrap();
    assert_eq!(
        data,
        vec![
            2, 1, 0, 0, 0, 0, 0, 0, 2, 0, 0, 0, 0, 0, 0, 0, 7, 0, 0, 0, 0, 0, 0, 0, 0x0d, 0x0c,
            0x0b, 0x0a, 0, 0, 0, 0
        ]
    );
    let back = vulnerable::deserialize_state(&data).unwrap();
    assert_eq!(back.counter, 0x0102);
    assert_eq!(back.values, vec![7, 0x0a0b_0c0d]);
    assert_eq!(
        vulnerable::deserialize_state(&data[..15]).err().unwrap(),
        "Data too small to deserialize"
    );
    assert_eq!(
        vulnerable::deserialize_state(&data[..31]).err().unwrap(),
        "Data too small to deserialize all values"
    );
    // Bytes after the last value are passed over.
    let mut longer = data.clone();
    longer.push(9);
    assert_eq!(vulnerable::deserialize_state(&longer).unwrap().values, vec![7, 0x0a0b_0c0d]);
    // A number of values that no data can hold.
    let mut absurd = vec![0u8; 16];
    for byte in absurd[8..16].iter_mut() {
        *byte = 0xff;
    }
    assert_eq!(
        secure::deserialize_state(&absurd).err().unwrap(),
        "Data too small to deserialize all values"
    );
    let secure_state = secure::State { counter: 0x0102, values: vec![7, 0x0a0b_0c0d] };
    assert_eq!(secure::serialize_state(&secure_state).unwrap(), data);
    assert_eq!(secure::deserialize_state(&data).unwrap().counter, 0x0102);
}

#[test]
fn vulnerable_program_writes_into_any_account() {
    let mut program = vulnerable::Program::new();
    let account = [1u8; 32];
    let owner = [2u8; 32];
    let stranger = [3u8; 32];
    assert_eq!(
        program.process_instruction(stranger, account, 0, &[]).unwrap_err(),
        "Account not found"
    );
    assert!(program.initialize_account(account, owner).is_ok());
    assert_eq!(program.accounts.get(&account).unwrap().data, vec![0u8; 16]);
    assert_eq!(program.accounts.get(&account).unwrap().owner, owner);
    // The caller does not own the account, and it works all the same.
    assert!(program.process_instruction(stranger, account, 0, &[]).is_ok());
    assert_eq!(
        program.process_instruction(stranger, account, 1, &[1, 2, 3]).unwrap_err(),
        "Invalid instruction data"
    );
    assert_eq!(
        program.process_instruction(stranger, account, 2, &[]).unwrap_err(),
        "Invalid instruction"
    );
    assert!(program.process_instruction(stranger, account, 1, &[5, 0, 0, 0, 0, 0, 0, 0, 99]).is_ok());
    let state =
        vulnerable::deserialize_state(&program.accounts.get(&account).unwrap().data).unwrap();
    assert_eq!(state.counter, 1);
    assert_eq!(state.values, vec![5]);
    program.accounts.get_mut(&account).unwrap().data = vec![0u8; 3];
    assert_eq!(
        program.process_instruction(stranger, account, 0, &[]).unwrap_err(),
        "Data too small to deserialize"
    );
}

#[test]
fn secure_program_checks_owner_and_size() {
    let mut program = secure::Program::new();
    let account = [1u8; 32];
    let owner = [2u8; 32];
    let stranger = [3u8; 32];
    assert_eq!(
        program.initialize_account(account, owner, 15).unwrap_err(),
        "Account size too small for initial state"
    );
    assert!(!program.accounts.contains_key(&account));
    assert_eq!(program.process_instruction(owner, account, 0, &[]).unwrap_err(), "Account not found");
    assert!(program.initialize_account(account, owner, 24).is_ok());
    assert_eq!(program.accounts.get(&account).unwrap().size, 24);
    assert_eq!(
        program.process_instruction(stranger, account, 0, &[]).unwrap_err(),
        "Account not owned by this program"
    );
    assert!(program.process_instruction(owner, account, 0, &[]).is_ok());
    assert_eq!(
        program.process_instruction(owner, account, 1, &[1, 2, 3]).unwrap_err(),
        "Invalid instruction data"
    );
    assert_eq!(
        program.process_instruction(owner, account, 7, &[]).unwrap_err(),
        "Invalid instruction"
    );
    assert!(program.process_instruction(owner, account, 1, &[5, 0, 0, 0, 0, 0, 0, 0]).is_ok());
    assert_eq!(
        program.process_instruction(owner, account, 1, &[6, 0, 0, 0, 0, 0, 0, 0]).unwrap_err(),
        "Account capacity exceeded"
    );
    let state = secure::deserialize_state(&program.accounts.get(&account).unwrap().data).unwrap();
    assert_eq!(state.counter, 1);
    assert_eq!(state.values, vec![5]);
    assert_eq!(program.accounts.get(&account).unwrap().data.len(), 24);
    // An account that was made smaller than its data takes no more writes.
    program.accounts.get_mut(&account).unwrap().size = 20;
    assert_eq!(
        program.process_instruction(owner, account, 0, &[]).unwrap_err(),
        "Operation would exceed account size"
    );
    program.accounts.get_mut(&account).unwrap().data = vec![0u8; 3];
    assert_eq!(
        program.process_instruction(owner, account, 0, &[]).unwrap_err(),
        "Data too small to deserialize"
    );
}
