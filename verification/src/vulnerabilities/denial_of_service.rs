//! # Denial of Service Vulnerability
//!
//! Denial of Service (DoS) vulnerabilities occur when a smart contract can be
//! manipulated to prevent legitimate users from accessing its functionality,
//! either temporarily or permanently. This can happen through resource exhaustion,
//! logic locks, or other means of disrupting normal contract operations.
//!
//! In Rust smart contracts, DoS can manifest in various ways, from loops with
//! unbounded iterations to storage exhaustion attacks.

use crate::vulnerabilities::Vulnerability;
use vstd::prelude::*;

pub mod secure;
pub mod vulnerable;

verus! {

pub const NAME: &'static str = "Denial of Service Vulnerability";

pub const DESCRIPTION: &'static str =
    "Occurs when a smart contract can be manipulated to prevent legitimate users \
    from accessing its functionality, either temporarily or permanently. This can \
    happen through resource exhaustion, logic locks, or other means of disrupting \
    normal contract operations.";

pub const EXPLOIT_EXAMPLE: &'static str = r#"
        // Vulnerable function with unbounded iteration
        pub fn process_all_accounts(ctx: Context<ProcessAccounts>) -> Result<()> {
            // VULNERABILITY: Unbounded iteration can lead to compute budget exhaustion
            // A malicious user could create many small accounts to force this function
            // to hit computational limits and fail
            
            for account in ctx.accounts.user_accounts.iter() {
                process_account(account)?;
            }
            
            Ok(())
        }
        
        // Vulnerable function with potential blocking
        pub fn withdraw_all(ctx: Context<WithdrawAll>) -> Result<()> {
            // VULNERABILITY: This function requires all users to be processed
            // If one user's processing fails, all users are blocked
            
            let mut total_processed = 0;
            
            for user in ctx.accounts.users.iter() {
                // If this fails for any user, the entire transaction fails
                process_withdrawal(user)?;
                total_processed += 1;
            }
            
            // Update global state
            ctx.accounts.global_state.last_processed_count = total_processed;
            
            Ok(())
        }
        "#;

pub const DETECTION_1: &'static str =
    "Look for loops that iterate over user-controlled collections";

pub const DETECTION_2: &'static str =
    "Check for functions that process multiple accounts in a single transaction";

pub const DETECTION_3: &'static str =
    "Identify critical contract operations that could be blocked by a failed transaction";

pub const DETECTION_4: &'static str =
    "Examine storage patterns that could allow unbounded growth";

pub const DETECTION_5: &'static str =
    "Look for array operations without proper bounds checking";

pub const REMEDIATION_1: &'static str =
    "Implement paging for operations that iterate over large collections";

pub const REMEDIATION_2: &'static str =
    "Add limits to the number of items processed in a single transaction";

pub const REMEDIATION_3: &'static str =
    "Use a pull-payment pattern instead of pushing to many recipients";

pub const REMEDIATION_4: &'static str =
    "Design fault-tolerant systems that can handle individual failures";

pub const REMEDIATION_5: &'static str =
    "Add storage limits and garbage collection mechanisms";

/// The platforms on which this class is commonly found.
pub open spec fn platform_names() -> Seq<&'static str> {
    seq!["Solana", "NEAR", "Polkadot", "All Rust-based contracts"]
}

/// What an auditor looks for, in order.
pub open spec fn detection_texts() -> Seq<&'static str> {
    seq![DETECTION_1, DETECTION_2, DETECTION_3, DETECTION_4, DETECTION_5]
}

/// How to mend or avoid the flaw, in order.
pub open spec fn remediation_texts() -> Seq<&'static str> {
    seq![REMEDIATION_1, REMEDIATION_2, REMEDIATION_3, REMEDIATION_4, REMEDIATION_5]
}

/// Represents a denial of service vulnerability example
pub struct DoSVulnerability;

impl Vulnerability for DoSVulnerability {
    fn name(&self) -> (text: &'static str)
        ensures
            text == NAME,
    {
        NAME
    }

    fn description(&self) -> (text: &'static str)
        ensures
            text == DESCRIPTION,
    {
        DESCRIPTION
    }

    fn affected_platforms(&self) -> (list: Vec<&'static str>)
        ensures
            list@ == platform_names(),
    {
        let list = vec!["Solana", "NEAR", "Polkadot", "All Rust-based contracts"];
        assert(list@ =~= platform_names());
        list
    }

    fn exploit_example(&self) -> (text: &'static str)
        ensures
            text == EXPLOIT_EXAMPLE,
    {
        EXPLOIT_EXAMPLE
    }

    fn detection_methods(&self) -> (list: Vec<&'static str>)
        ensures
            list@ == detection_texts(),
    {
        let list = vec![DETECTION_1, DETECTION_2, DETECTION_3, DETECTION_4, DETECTION_5];
        assert(list@ =~= detection_texts());
        list
    }

    fn remediation(&self) -> (list: Vec<&'static str>)
        ensures
            list@ == remediation_texts(),
    {
        let list = vec![REMEDIATION_1, REMEDIATION_2, REMEDIATION_3, REMEDIATION_4, REMEDIATION_5];
        assert(list@ =~= remediation_texts());
        list
    }
}

} // verus!
