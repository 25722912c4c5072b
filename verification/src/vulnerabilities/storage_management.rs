//! # Storage Management Vulnerability
//!
//! Storage management vulnerabilities occur when smart contracts mishandle blockchain storage,
//! leading to data corruption, unexpected behavior, or excessive resource consumption.
//!
//! In Rust smart contracts, these vulnerabilities manifest through:
//! - Improper account data validation
//! - Memory safety issues specific to blockchain environments
//! - Inefficient storage patterns leading to high gas costs
//! - Data corruption due to improper serialization/deserialization

use crate::vulnerabilities::Vulnerability;
use vstd::prelude::*;

pub mod secure;
pub mod vulnerable;

verus! {

pub const NAME: &'static str = "Storage Management Vulnerability";

pub const DESCRIPTION: &'static str =
    "Occurs when a smart contract improperly manages on-chain storage, leading to data corruption, \
    inefficient resource usage, or unexpected behavior. This includes problems with serialization, \
    account management, and memory safety issues specific to blockchain environments.";

pub const EXPLOIT_EXAMPLE: &'static str = r#"
        // Vulnerable Solana program with storage management issues
        pub fn process_instruction(
            program_id: &Pubkey,
            accounts: &[AccountInfo],
            instruction_data: &[u8],
        ) -> ProgramResult {
            let accounts_iter = &mut accounts.iter();
            let account = next_account_info(accounts_iter)?;
            
            // VULNERABILITY: No size validation before deserializing
            // If the account data is smaller than expected, this will panic
            let mut data = account.try_borrow_mut_data()?;
            
            // VULNERABILITY: No ownership check
            // Should verify account.owner == program_id
            
            // Deserialize account data
            let mut state = State::try_from_slice(&data)?;
            
            // Process based on instruction
            let instruction = instruction_data[0];
            match instruction {
                0 => {
                    // Increment counter
                    state.counter += 1;
                }
                1 => {
                    // VULNERABILITY: No bounds checking when extending storage
                    // If we try to add more items than the account can hold, it will fail
                    let new_value = instruction_data[1..].try_into().unwrap();
                    state.values.push(new_value);
                }
                _ => return Err(ProgramError::InvalidInstructionData),
            }
            
            // VULNERABILITY: No error handling for serialization
            // If serialization fails, we may leave the account in a corrupted state
            state.serialize(&mut *data)?;
            
            Ok(())
        }
        "#;

pub const DETECTION_1: &'static str =
    "Check for proper account size validation before operations";

pub const DETECTION_2: &'static str =
    "Verify account ownership checks are implemented correctly";

pub const DETECTION_3: &'static str =
    "Look for proper error handling during serialization/deserialization";

pub const DETECTION_4: &'static str =
    "Analyze storage patterns for efficiency and cost";

pub const DETECTION_5: &'static str =
    "Check for bounds validation when extending dynamic data structures";

pub const REMEDIATION_1: &'static str =
    "Always validate account size before operations";

pub const REMEDIATION_2: &'static str =
    "Implement comprehensive ownership checks";

pub const REMEDIATION_3: &'static str =
    "Use robust error handling for all serialization/deserialization";

pub const REMEDIATION_4: &'static str =
    "Design efficient storage patterns to minimize costs";

pub const REMEDIATION_5: &'static str =
    "Implement proper bounds checking for dynamic data structures";

/// The platforms on which this class is commonly found.
pub open spec fn platform_names() -> Seq<&'static str> {
    seq!["Solana", "NEAR", "Polkadot", "CosmWasm"]
}

/// What an auditor looks for, in order.
pub open spec fn detection_texts() -> Seq<&'static str> {
    seq![DETECTION_1, DETECTION_2, DETECTION_3, DETECTION_4, DETECTION_5]
}

/// How to mend or avoid the flaw, in order.
pub open spec fn remediation_texts() -> Seq<&'static str> {
    seq![REMEDIATION_1, REMEDIATION_2, REMEDIATION_3, REMEDIATION_4, REMEDIATION_5]
}

/// Represents a storage management vulnerability example
pub struct StorageManagementVulnerability;

impl Vulnerability for StorageManagementVulnerability {
    fn name(&self) -> (text: &'static str)
        ensures
            text == NAME,
    {
        NAME
    }

    fn description(&self) -> (text: &'static str)
        ensures
            text == DESCRIPTION,
    {
        DESCRIPTION
    }

    fn affected_platforms(&self) -> (list: Vec<&'static str>)
        ensures
            list@ == platform_names(),
    {
        let list = vec!["Solana", "NEAR", "Polkadot", "CosmWasm"];
        assert(list@ =~= platform_names());
        list
    }

    fn exploit_example(&self) -> (text: &'static str)
        ensures
            text == EXPLOIT_EXAMPLE,
    {
        EXPLOIT_EXAMPLE
    }

    fn detection_methods(&self) -> (list: Vec<&'static str>)
        ensures
            list@ == detection_texts(),
    {
        let list = vec![DETECTION_1, DETECTION_2, DETECTION_3, DETECTION_4, DETECTION_5];
        assert(list@ =~= detection_texts());
        list
    }

    fn remediation(&self) -> (list: Vec<&'static str>)
        ensures
            list@ == remediation_texts(),
    {
        let list = vec![REMEDIATION_1, REMEDIATION_2, REMEDIATION_3, REMEDIATION_4, REMEDIATION_5];
        assert(list@ =~= remediation_texts());
        list
    }
}

} // verus!
