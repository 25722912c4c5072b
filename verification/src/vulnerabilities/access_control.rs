//! # Access Control Vulnerability
//!
//! Access control vulnerabilities occur when a smart contract fails to properly
//! restrict access to privileged functions, allowing unauthorized users to
//! perform sensitive operations such as withdrawing funds, changing contract
//! parameters, or affecting other users' assets.
//!
//! These vulnerabilities can be especially subtle in Rust smart contracts where
//! ownership patterns and account validation may differ from other platforms.

use crate::vulnerabilities::Vulnerability;
use vstd::prelude::*;

pub mod secure;
pub mod vulnerable;

verus! {

pub const NAME: &'static str = "Access Control Vulnerability";

pub const DESCRIPTION: &'static str =
    "Occurs when a smart contract fails to properly restrict access to privileged functions, \
    allowing unauthorized users to perform sensitive operations such as withdrawing funds, \
    changing contract parameters, or affecting other users' assets.";

pub const EXPLOIT_EXAMPLE: &'static str = r#"
        // Vulnerable function with missing access control
        pub fn set_protocol_fee(ctx: Context<SetFee>, new_fee: u64) -> Result<()> {
            // VULNERABILITY: No access control check to restrict who can call this
            // Anyone can change the fee to any value
            
            ctx.accounts.protocol_config.fee_percentage = new_fee;
            
            Ok(())
        }
        
        // Vulnerable function with broken access control
        pub fn update_user_account(ctx: Context<UpdateAccount>, data: UserAccountData) -> Result<()> {
            // VULNERABILITY: Incorrect access validation
            // The function only checks if the provided pubkey matches the expected owner
            // but doesn't verify that the signer actually signed the transaction
            
            if ctx.accounts.user_account.owner != ctx.accounts.authority.key() {
                return Err(ErrorCode::InvalidOwner.into());
            }
            
            // Update account with the new data
            ctx.accounts.user_account.update(data);
            
            Ok(())
        }
        "#;

pub const DETECTION_1: &'static str =
    "Identify privileged functions and verify appropriate access controls";

pub const DETECTION_2: &'static str =
    "Check for missing signer verification in sensitive operations";

pub const DETECTION_3: &'static str =
    "Review account validation logic, especially in functions that modify state";

pub const DETECTION_4: &'static str =
    "Look for admin-only functions that lack proper authorization checks";

pub const DETECTION_5: &'static str =
    "Verify that account ownership is properly enforced in cross-program operations";

pub const REMEDIATION_1: &'static str =
    "Implement proper signer verification for all sensitive operations";

pub const REMEDIATION_2: &'static str =
    "Use a well-defined role-based access control (RBAC) system";

pub const REMEDIATION_3: &'static str =
    "Ensure all admin functions check for the correct admin authority";

pub const REMEDIATION_4: &'static str =
    "Validate account ownership before performing operations on behalf of users";

pub const REMEDIATION_5: &'static str =
    "Consider time-locks for critical parameter changes";

/// The platforms on which this class is commonly found.
pub open spec fn platform_names() -> Seq<&'static str> {
    seq!["Solana", "NEAR", "Polkadot", "All Rust-based contracts"]
}

/// What an auditor looks for, in order.
pub open spec fn detection_texts() -> Seq<&'static str> {
    seq![DETECTION_1, DETECTION_2, DETECTION_3, DETECTION_4, DETECTION_5]
}

/// How to mend or avoid the flaw, in order.
pub open spec fn remediation_texts() -> Seq<&'static str> {
    seq![REMEDIATION_1, REMEDIATION_2, REMEDIATION_3, REMEDIATION_4, REMEDIATION_5]
}

/// Represents an access control vulnerability example
pub struct AccessControlVulnerability;

impl Vulnerability for AccessControlVulnerability {
    fn name(&self) -> (text: &'static str)
        ensures
            text == NAME,
    {
        NAME
    }

    fn description(&self) -> (text: &'static str)
        ensures
            text == DESCRIPTION,
    {
        DESCRIPTION
    }

    fn affected_platforms(&self) -> (list: Vec<&'static str>)
        ensures
            list@ == platform_names(),
    {
        let list = vec!["Solana", "NEAR", "Polkadot", "All Rust-based contracts"];
        assert(list@ =~= platform_names());
        list
    }

    fn exploit_example(&self) -> (text: &'static str)
        ensures
            text == EXPLOIT_EXAMPLE,
    {
        EXPLOIT_EXAMPLE
    }

    fn detection_methods(&self) -> (list: Vec<&'static str>)
        ensures
            list@ == detection_texts(),
    {
        let list = vec![DETECTION_1, DETECTION_2, DETECTION_3, DETECTION_4, DETECTION_5];
        assert(list@ =~= detection_texts());
        list
    }

    fn remediation(&self) -> (list: Vec<&'static str>)
        ensures
            list@ == remediation_texts(),
    {
        let list = vec![REMEDIATION_1, REMEDIATION_2, REMEDIATION_3, REMEDIATION_4, REMEDIATION_5];
        assert(list@ =~= remediation_texts());
        list
    }
}

} // verus!
