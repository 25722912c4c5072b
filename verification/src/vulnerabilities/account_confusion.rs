//! # Account Confusion Vulnerability
//!
//! Account confusion vulnerabilities occur when a smart contract fails to properly validate
//! the identity or type of accounts it interacts with, allowing attackers to substitute unexpected
//! accounts and manipulate program execution.
//!
//! In Rust smart contracts on Solana, these vulnerabilities commonly manifest through:
//! - Missing or improper account validation
//! - Not checking account ownership
//! - Not verifying Program Derived Addresses (PDAs)
//! - Cross-instance attacks where one instance's data is used in another instance

use crate::vulnerabilities::Vulnerability;
use vstd::prelude::*;

pub mod secure;
pub mod vulnerable;

verus! {

pub const NAME: &'static str = "Account Confusion Vulnerability";

pub const DESCRIPTION: &'static str =
    "Occurs when a smart contract fails to properly validate the identity or type of accounts \
    it interacts with, allowing attackers to substitute unexpected accounts. This is particularly \
    relevant on Solana where programs operate on accounts passed to them by the transaction.";

pub const EXPLOIT_EXAMPLE: &'static str = r#"
        // Vulnerable account validation in a Solana program
        pub fn process_instruction(
            program_id: &Pubkey,
            accounts: &[AccountInfo],
            instruction_data: &[u8],
        ) -> ProgramResult {
            let accounts_iter = &mut accounts.iter();
            
            let user_account = next_account_info(accounts_iter)?;
            let vault_account = next_account_info(accounts_iter)?;
            let token_program = next_account_info(accounts_iter)?;
            
            // VULNERABILITY: Not validating that vault_account is actually the intended vault
            // An attacker could substitute their own account here
            
            // Extract instruction data
            let amount = u64::from_le_bytes(instruction_data[0..8].try_into().unwrap());
            
            // Transfer tokens from vault to user
            let transfer_instruction = solana_program::instruction::Instruction {
                program_id: *token_program.key,
                accounts: vec![
                    AccountMeta::new(*vault_account.key, false),
                    AccountMeta::new(*user_account.key, false),
                    AccountMeta::new_readonly(*program_id, true),
                ],
                data: /* token transfer instruction */,
            };
            
            invoke_signed(
                &transfer_instruction,
                &[vault_account.clone(), user_account.clone(), program_id.clone()],
                &[&[/* PDA seeds */]],
            )?;
            
            Ok(())
        }
        "#;

pub const DETECTION_1: &'static str =
    "Verify that all account ownership checks are implemented correctly";

pub const DETECTION_2: &'static str =
    "Check that PDA validation includes bump seed verification";

pub const DETECTION_3: &'static str =
    "Validate that expected program IDs are explicitly checked";

pub const DETECTION_4: &'static str =
    "Ensure all account types are validated before use";

pub const DETECTION_5: &'static str =
    "Verify that the correct account is used in each context";

pub const REMEDIATION_1: &'static str =
    "Always validate account ownership";

pub const REMEDIATION_2: &'static str =
    "Properly derive and check PDAs with the correct seeds and bump";

pub const REMEDIATION_3: &'static str =
    "Explicitly validate all program IDs for cross-program invocations";

pub const REMEDIATION_4: &'static str =
    "Use explicit account type checking for each account";

pub const REMEDIATION_5: &'static str =
    "Implement a comprehensive account validation framework";

/// The platforms on which this class is commonly found.
pub open spec fn platform_names() -> Seq<&'static str> {
    seq!["Solana", "NEAR"]
}

/// What an auditor looks for, in order.
pub open spec fn detection_texts() -> Seq<&'static str> {
    seq![DETECTION_1, DETECTION_2, DETECTION_3, DETECTION_4, DETECTION_5]
}

/// How to mend or avoid the flaw, in order.
pub open spec fn remediation_texts() -> Seq<&'static str> {
    seq![REMEDIATION_1, REMEDIATION_2, REMEDIATION_3, REMEDIATION_4, REMEDIATION_5]
}

/// Represents an account confusion vulnerability example
pub struct AccountConfusionVulnerability;

impl Vulnerability for AccountConfusionVulnerability {
    fn name(&self) -> (text: &'static str)
        ensures
            text == NAME,
    {
        NAME
    }

    fn description(&self) -> (text: &'static str)
        ensures
            text == DESCRIPTION,
    {
        DESCRIPTION
    }

    fn affected_platforms(&self) -> (list: Vec<&'static str>)
        ensures
            list@ == platform_names(),
    {
        let list = vec!["Solana", "NEAR"];
        assert(list@ =~= platform_names());
        list
    }

    fn exploit_example(&self) -> (text: &'static str)
        ensures
            text == EXPLOIT_EXAMPLE,
    {
        EXPLOIT_EXAMPLE
    }

    fn detection_methods(&self) -> (list: Vec<&'static str>)
        ensures
            list@ == detection_texts(),
    {
        let list = vec![DETECTION_1, DETECTION_2, DETECTION_3, DETECTION_4, DETECTION_5];
        assert(list@ =~= detection_texts());
        list
    }

    fn remediation(&self) -> (list: Vec<&'static str>)
        ensures
            list@ == remediation_texts(),
    {
        let list = vec![REMEDIATION_1, REMEDIATION_2, REMEDIATION_3, REMEDIATION_4, REMEDIATION_5];
        assert(list@ =~= remediation_texts());
        list
    }
}

} // verus!
