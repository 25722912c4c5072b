//! # Reentrancy Vulnerability
//!
//! Reentrancy vulnerabilities occur when a contract function can be called repeatedly
//! before the first invocation is complete, allowing an attacker to manipulate the
//! contract's state in unexpected ways.
//!
//! In Rust smart contracts (particularly on platforms like Solana), reentrancy often
//! manifests through cross-program invocation (CPI) where the callee can call back
//! into the caller.

use crate::vulnerabilities::Vulnerability;
use vstd::prelude::*;

pub mod secure;
pub mod vulnerable;

verus! {

pub const NAME: &'static str = "Reentrancy Vulnerability";

pub const DESCRIPTION: &'static str =
    "Occurs when a contract function can be re-entered before the first call completes, \
    allowing an attacker to manipulate state in unexpected ways. In Rust smart contracts, \
    this typically happens through cross-program invocation (CPI) mechanisms.";

pub const EXPLOIT_EXAMPLE: &'static str = r#"
        // Vulnerable contract that doesn't follow checks-effects-interactions pattern
        pub fn withdraw(ctx: Context<Withdraw>, amount: u64) -> Result<()> {
            let user_balance = ctx.accounts.user_account.balance;
            
            if user_balance < amount {
                return Err(ErrorCode::InsufficientFunds.into());
            }
            
            // VULNERABILITY: Transfer happens before state update
            // This allows the recipient to call back into this function before
            // the balance is updated
            transfer_tokens(ctx.accounts.recipient.key, amount)?;
            
            // State is updated after the external call
            ctx.accounts.user_account.balance -= amount;
            
            Ok(())
        }
        "#;

pub const DETECTION_1: &'static str =
    "Look for state changes that occur after external calls or cross-program invocations";

pub const DETECTION_2: &'static str =
    "Check if the contract uses a reentrancy guard";

pub const DETECTION_3: &'static str =
    "Verify that the checks-effects-interactions pattern is followed";

pub const DETECTION_4: &'static str =
    "Examine cross-program invocation permissions";

pub const DETECTION_5: &'static str =
    "Check for proper handling of account validation";

pub const REMEDIATION_1: &'static str =
    "Follow the checks-effects-interactions pattern: validate conditions, update state, then make external calls";

pub const REMEDIATION_2: &'static str =
    "Implement reentrancy guards using a mutex-like mechanism";

pub const REMEDIATION_3: &'static str =
    "Use Rust's type system to prevent reentrancy by design";

pub const REMEDIATION_4: &'static str =
    "Minimize cross-program invocations where possible";

pub const REMEDIATION_5: &'static str =
    "Carefully consider which accounts have invocation privileges";

/// The platforms on which this class is commonly found.
pub open spec fn platform_names() -> Seq<&'static str> {
    seq!["Solana", "NEAR", "Polkadot"]
}

/// What an auditor looks for, in order.
pub open spec fn detection_texts() -> Seq<&'static str> {
    seq![DETECTION_1, DETECTION_2, DETECTION_3, DETECTION_4, DETECTION_5]
}

/// How to mend or avoid the flaw, in order.
pub open spec fn remediation_texts() -> Seq<&'static str> {
    seq![REMEDIATION_1, REMEDIATION_2, REMEDIATION_3, REMEDIATION_4, REMEDIATION_5]
}

/// Represents a reentrancy vulnerability example
pub struct ReentrancyVulnerability;

impl Vulnerability for ReentrancyVulnerability {
    fn name(&self) -> (text: &'static str)
        ensures
            text == NAME,
    {
        NAME
    }

    fn description(&self) -> (text: &'static str)
        ensures
            text == DESCRIPTION,
    {
        DESCRIPTION
    }

    fn affected_platforms(&self) -> (list: Vec<&'static str>)
        ensures
            list@ == platform_names(),
    {
        let list = vec!["Solana", "NEAR", "Polkadot"];
        assert(list@ =~= platform_names());
        list
    }

    fn exploit_example(&self) -> (text: &'static str)
        ensures
            text == EXPLOIT_EXAMPLE,
    {
        EXPLOIT_EXAMPLE
    }

    fn detection_methods(&self) -> (list: Vec<&'static str>)
        ensures
            list@ == detection_texts(),
    {
        let list = vec![DETECTION_1, DETECTION_2, DETECTION_3, DETECTION_4, DETECTION_5];
        assert(list@ =~= detection_texts());
        list
    }

    fn remediation(&self) -> (list: Vec<&'static str>)
        ensures
            list@ == remediation_texts(),
    {
        let list = vec![REMEDIATION_1, REMEDIATION_2, REMEDIATION_3, REMEDIATION_4, REMEDIATION_5];
        assert(list@ =~= remediation_texts());
        list
    }
}

} // verus!
