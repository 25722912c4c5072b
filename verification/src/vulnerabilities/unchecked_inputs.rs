//! # Unchecked Inputs Vulnerability
//!
//! Unchecked inputs vulnerabilities occur when a smart contract fails to validate
//! user-provided data, potentially leading to various attacks including injection,
//! manipulation of contract state, or bypassing security controls.
//!
//! This is especially important in Rust contracts where deserialization and type
//! conversion might appear safe but still require validation of logical constraints.

use crate::vulnerabilities::Vulnerability;
use vstd::prelude::*;

pub mod secure;
pub mod vulnerable;

verus! {

pub const NAME: &'static str = "Unchecked Inputs Vulnerability";

pub const DESCRIPTION: &'static str =
    "Occurs when a smart contract fails to validate user-provided data, \
    potentially leading to various attacks including injection, manipulation \
    of contract state, or bypassing security controls.";

pub const EXPLOIT_EXAMPLE: &'static str = r#"
        // Vulnerable function that doesn't validate inputs properly
        pub fn process_transfer(ctx: Context<Transfer>, amount: u64) -> Result<()> {
            // VULNERABILITY: No validation on the amount
            // The amount could be 0, causing a no-op transfer
            // or extremely large, causing other issues
            
            ctx.accounts.source.balance -= amount;
            ctx.accounts.destination.balance += amount;
            
            Ok(())
        }
        
        // Vulnerable function that trusts deserialized data
        pub fn process_transaction(ctx: Context<ProcessTx>, tx_data: Vec<u8>) -> Result<()> {
            // VULNERABILITY: Doesn't check bounds, patterns, or constraints
            // after deserialization
            let transaction: Transaction = borsh::BorshDeserialize::deserialize(&tx_data[..])
                .map_err(|_| ErrorCode::InvalidTransaction)?;
            
            // Uses transaction data without additional validation
            process_validated_transaction(ctx, transaction)
        }
        "#;

pub const DETECTION_1: &'static str =
    "Look for functions that receive external inputs without validation";

pub const DETECTION_2: &'static str =
    "Check for missing boundary checks on numerical inputs";

pub const DETECTION_3: &'static str =
    "Look for deserialization of complex structures without validation";

pub const DETECTION_4: &'static str =
    "Verify validation logic on arguments that could affect program flow";

pub const DETECTION_5: &'static str =
    "Examine type conversions that might truncate or alter values";

pub const REMEDIATION_1: &'static str =
    "Implement comprehensive input validation for all user-provided data";

pub const REMEDIATION_2: &'static str =
    "Use Rust's type system to enforce constraints where possible";

pub const REMEDIATION_3: &'static str =
    "Add explicit boundary checks for numerical values";

pub const REMEDIATION_4: &'static str =
    "Validate deserialized data after deserialization";

pub const REMEDIATION_5: &'static str =
    "Consider using libraries like 'validator' for complex validation logic";

/// The platforms on which this class is commonly found.
pub open spec fn platform_names() -> Seq<&'static str> {
    seq!["Solana", "NEAR", "Polkadot", "All Rust-based contracts"]
}

/// What an auditor looks for, in order.
pub open spec fn detection_texts() -> Seq<&'static str> {
    seq![DETECTION_1, DETECTION_2, DETECTION_3, DETECTION_4, DETECTION_5]
}

/// How to mend or avoid the flaw, in order.
pub open spec fn remediation_texts() -> Seq<&'static str> {
    seq![REMEDIATION_1, REMEDIATION_2, REMEDIATION_3, REMEDIATION_4, REMEDIATION_5]
}

/// Represents an unchecked inputs vulnerability example
pub struct UncheckedInputsVulnerability;

impl Vulnerability for UncheckedInputsVulnerability {
    fn name(&self) -> (text: &'static str)
        ensures
            text == NAME,
    {
        NAME
    }

    fn description(&self) -> (text: &'static str)
        ensures
            text == DESCRIPTION,
    {
        DESCRIPTION
    }

    fn affected_platforms(&self) -> (list: Vec<&'static str>)
        ensures
            list@ == platform_names(),
    {
        let list = vec!["Solana", "NEAR", "Polkadot", "All Rust-based contracts"];
        assert(list@ =~= platform_names());
        list
    }

    fn exploit_example(&self) -> (text: &'static str)
        ensures
            text == EXPLOIT_EXAMPLE,
    {
        EXPLOIT_EXAMPLE
    }

    fn detection_methods(&self) -> (list: Vec<&'static str>)
        ensures
            list@ == detection_texts(),
    {
        let list = vec![DETECTION_1, DETECTION_2, DETECTION_3, DETECTION_4, DETECTION_5];
        assert(list@ =~= detection_texts());
        list
    }

    fn remediation(&self) -> (list: Vec<&'static str>)
        ensures
            list@ == remediation_texts(),
    {
        let list = vec![REMEDIATION_1, REMEDIATION_2, REMEDIATION_3, REMEDIATION_4, REMEDIATION_5];
        assert(list@ =~= remediation_texts());
        list
    }
}

} // verus!
