//! # Inadequate Event Emissions Vulnerability
//!
//! Inadequate event emissions vulnerabilities occur when smart contracts fail to emit
//! critical events for important state changes or operations, making it difficult to
//! monitor the contract's behavior off-chain and detect malicious activity.
//!
//! In Rust smart contracts, these vulnerabilities manifest through:
//! - Missing events for critical operations
//! - Events with insufficient information
//! - Inconsistent event emissions

use crate::vulnerabilities::Vulnerability;
use vstd::prelude::*;

pub mod secure;
pub mod vulnerable;

verus! {

pub const NAME: &'static str = "Inadequate Event Emissions Vulnerability";

pub const DESCRIPTION: &'static str =
    "Occurs when a smart contract fails to emit appropriate events for critical operations, \
    making it difficult to track important state changes off-chain. This can lead to security \
    issues as suspicious activities may go unnoticed without proper monitoring.";

pub const EXPLOIT_EXAMPLE: &'static str = r#"
        // Vulnerable implementation with missing event emissions
        pub fn update_admin(ctx: Context<UpdateAdmin>, new_admin: Pubkey) -> Result<()> {
            // VULNERABILITY: Critical operation without event emission
            // Changing the admin address is a security-critical operation
            // that should be logged with an event
            
            ctx.accounts.config.admin = new_admin;
            
            Ok(())
        }
        
        pub fn withdraw_funds(ctx: Context<WithdrawFunds>, amount: u64) -> Result<()> {
            // Check that the caller is the admin
            if ctx.accounts.authority.key() != ctx.accounts.config.admin {
                return Err(ErrorCode::Unauthorized.into());
            }
            
            // VULNERABILITY: No event emitted for fund withdrawal
            // This makes it difficult to track fund movements off-chain
            
            // Transfer funds
            let transfer_instruction = transfer(
                ctx.accounts.treasury.to_account_info().key,
                ctx.accounts.recipient.to_account_info().key,
                amount,
            );
            
            invoke_signed(
                &transfer_instruction,
                &[
                    ctx.accounts.treasury.to_account_info(),
                    ctx.accounts.recipient.to_account_info(),
                ],
                &[&[/* seeds */]],
            )?;
            
            Ok(())
        }
        "#;

pub const DETECTION_1: &'static str =
    "Identify all critical state changes and verify they emit appropriate events";

pub const DETECTION_2: &'static str =
    "Check that sensitive operations like role changes emit detailed events";

pub const DETECTION_3: &'static str =
    "Verify financial transactions (deposits, withdrawals, transfers) emit events";

pub const DETECTION_4: &'static str =
    "Ensure events contain sufficient information for off-chain monitoring";

pub const DETECTION_5: &'static str =
    "Check for consistent event emission patterns across similar operations";

pub const REMEDIATION_1: &'static str =
    "Emit events for all critical state changes";

pub const REMEDIATION_2: &'static str =
    "Include detailed information in events (actors, amounts, timestamps)";

pub const REMEDIATION_3: &'static str =
    "Implement a consistent event emission policy across the contract";

pub const REMEDIATION_4: &'static str =
    "Use a standardized event structure for similar operations";

pub const REMEDIATION_5: &'static str =
    "Ensure events capture both the previous and new state for important changes";

/// The platforms on which this class is commonly found.
pub open spec fn platform_names() -> Seq<&'static str> {
    seq!["Solana", "NEAR", "Polkadot", "CosmWasm"]
}

/// What an auditor looks for, in order.
pub open spec fn detection_texts() -> Seq<&'static str> {
    seq![DETECTION_1, DETECTION_2, DETECTION_3, DETECTION_4, DETECTION_5]
}

/// How to mend or avoid the flaw, in order.
pub open spec fn remediation_texts() -> Seq<&'static str> {
    seq![REMEDIATION_1, REMEDIATION_2, REMEDIATION_3, REMEDIATION_4, REMEDIATION_5]
}

/// Represents an inadequate event emissions vulnerability example
pub struct InadequateEventsVulnerability;

impl Vulnerability for InadequateEventsVulnerability {
    fn name(&self) -> (text: &'static str)
        ensures
            text == NAME,
    {
        NAME
    }

    fn description(&self) -> (text: &'static str)
        ensures
            text == DESCRIPTION,
    {
        DESCRIPTION
    }

    fn affected_platforms(&self) -> (list: Vec<&'static str>)
        ensures
            list@ == platform_names(),
    {
        let list = vec!["Solana", "NEAR", "Polkadot", "CosmWasm"];
        assert(list@ =~= platform_names());
        list
    }

    fn exploit_example(&self) -> (text: &'static str)
        ensures
            text == EXPLOIT_EXAMPLE,
    {
        EXPLOIT_EXAMPLE
    }

    fn detection_methods(&self) -> (list: Vec<&'static str>)
        ensures
            list@ == detection_texts(),
    {
        let list = vec![DETECTION_1, DETECTION_2, DETECTION_3, DETECTION_4, DETECTION_5];
        assert(list@ =~= detection_texts());
        list
    }

    fn remediation(&self) -> (list: Vec<&'static str>)
        ensures
            list@ == remediation_texts(),
    {
        let list = vec![REMEDIATION_1, REMEDIATION_2, REMEDIATION_3, REMEDIATION_4, REMEDIATION_5];
        assert(list@ =~= remediation_texts());
        list
    }
}

} // verus!
