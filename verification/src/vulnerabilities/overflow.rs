//! # Integer Overflow/Underflow Vulnerability
//!
//! Integer overflow/underflow vulnerabilities occur when arithmetic operations
//! produce results that exceed the range of the data type, potentially leading to
//! unexpected behavior, including bypassing validation checks or manipulating balances.
//!
//! While Rust provides some built-in protection in debug mode, these protections
//! might be disabled in release builds, leading to potential vulnerabilities.

use crate::vulnerabilities::Vulnerability;
use vstd::prelude::*;

pub mod secure;
pub mod vulnerable;

verus! {

pub const NAME: &'static str = "Integer Overflow/Underflow Vulnerability";

pub const DESCRIPTION: &'static str =
    "Occurs when arithmetic operations exceed the range of the data type, \
    potentially leading to unexpected behavior. While Rust provides some \
    built-in protection in debug mode, these might be disabled in release builds.";

pub const EXPLOIT_EXAMPLE: &'static str = r#"
        // Vulnerable function that doesn't check for overflow
        pub fn add_to_balance(ctx: Context<UpdateBalance>, amount: u64) -> Result<()> {
            // VULNERABILITY: No overflow check
            // If account.balance is close to u64::MAX, this will overflow
            ctx.accounts.user_account.balance += amount;
            
            Ok(())
        }
        
        // Vulnerable function with indirect overflow
        pub fn process_large_transfer(ctx: Context<Transfer>, amount: u64) -> Result<()> {
            // VULNERABILITY: If amount + fee overflows, this check might be bypassed
            let fee = amount / 100; // 1% fee
            
            if amount + fee > ctx.accounts.payer.balance {
                return Err(ErrorCode::InsufficientFunds.into());
            }
            
            // Execution continues with insufficient balance
            ctx.accounts.payer.balance -= amount + fee;
            ctx.accounts.receiver.balance += amount;
            ctx.accounts.fee_collector.balance += fee;
            
            Ok(())
        }
        "#;

pub const DETECTION_1: &'static str =
    "Check arithmetic operations that could potentially overflow/underflow";

pub const DETECTION_2: &'static str =
    "Look for unchecked arithmetic, especially with user-supplied inputs";

pub const DETECTION_3: &'static str =
    "Verify that bounds checking is performed before critical operations";

pub const DETECTION_4: &'static str =
    "Check if the code uses checked arithmetic functions";

pub const DETECTION_5: &'static str =
    "Examine build configurations to ensure overflow checks aren't disabled in production";

pub const REMEDIATION_1: &'static str =
    "Use checked arithmetic operations (checked_add, checked_mul, etc.)";

pub const REMEDIATION_2: &'static str =
    "Implement explicit bounds checking before performing arithmetic";

pub const REMEDIATION_3: &'static str =
    "Consider using the num-traits crate for more robust handling";

pub const REMEDIATION_4: &'static str =
    "Use the Saturating trait for operations that should saturate rather than overflow";

pub const REMEDIATION_5: &'static str =
    "Keep panic-on-overflow enabled in release builds for critical code paths";

/// The platforms on which this class is commonly found.
pub open spec fn platform_names() -> Seq<&'static str> {
    seq!["Solana", "NEAR", "Polkadot", "All Rust-based contracts"]
}

/// What an auditor looks for, in order.
pub open spec fn detection_texts() -> Seq<&'static str> {
    seq![DETECTION_1, DETECTION_2, DETECTION_3, DETECTION_4, DETECTION_5]
}

/// How to mend or avoid the flaw, in order.
pub open spec fn remediation_texts() -> Seq<&'static str> {
    seq![REMEDIATION_1, REMEDIATION_2, REMEDIATION_3, REMEDIATION_4, REMEDIATION_5]
}

/// Represents an integer overflow/underflow vulnerability example
pub struct OverflowVulnerability;

impl Vulnerability for OverflowVulnerability {
    fn name(&self) -> (text: &'static str)
        ensures
            text == NAME,
    {
        NAME
    }

    fn description(&self) -> (text: &'static str)
        ensures
            text == DESCRIPTION,
    {
        DESCRIPTION
    }

    fn affected_platforms(&self) -> (list: Vec<&'static str>)
        ensures
            list@ == platform_names(),
    {
        let list = vec!["Solana", "NEAR", "Polkadot", "All Rust-based contracts"];
        assert(list@ =~= platform_names());
        list
    }

    fn exploit_example(&self) -> (text: &'static str)
        ensures
            text == EXPLOIT_EXAMPLE,
    {
        EXPLOIT_EXAMPLE
    }

    fn detection_methods(&self) -> (list: Vec<&'static str>)
        ensures
            list@ == detection_texts(),
    {
        let list = vec![DETECTION_1, DETECTION_2, DETECTION_3, DETECTION_4, DETECTION_5];
        assert(list@ =~= detection_texts());
        list
    }

    fn remediation(&self) -> (list: Vec<&'static str>)
        ensures
            list@ == remediation_texts(),
    {
        let list = vec![REMEDIATION_1, REMEDIATION_2, REMEDIATION_3, REMEDIATION_4, REMEDIATION_5];
        assert(list@ =~= remediation_texts());
        list
    }
}

} // verus!
