//! # Front-Running Vulnerability
//!
//! Front-running vulnerabilities occur when malicious actors can observe pending transactions
//! and execute their own transactions ahead of them to gain an advantage.
//!
//! In blockchain systems, these vulnerabilities manifest through:
//! - MEV (Miner/Maximal Extractable Value) exploitation
//! - Transaction ordering manipulation
//! - Lack of commit-reveal schemes for sensitive operations

use crate::vulnerabilities::Vulnerability;
use vstd::prelude::*;

pub mod secure;
pub mod vulnerable;

verus! {

pub const NAME: &'static str = "Front-Running Vulnerability";

pub const DESCRIPTION: &'static str =
    "Occurs when the design of a smart contract allows observers to anticipate and \
    exploit pending transactions by executing their own transactions first. This is \
    especially problematic in decentralized exchanges, NFT minting, and other time-sensitive operations.";

pub const EXPLOIT_EXAMPLE: &'static str = r#"
        // Vulnerable DEX swap function
        pub fn swap(
            ctx: Context<Swap>,
            amount_in: u64,
            min_amount_out: u64,
        ) -> Result<()> {
            let token_a_reserves = ctx.accounts.pool.token_a_reserves;
            let token_b_reserves = ctx.accounts.pool.token_b_reserves;
            
            // VULNERABILITY: Price calculation is fully transparent and can be front-run
            // Anyone seeing this transaction can calculate the exact price impact
            // and run their own transaction first
            
            // Calculate output amount based on constant product formula
            let amount_out = calculate_output_amount(
                amount_in,
                token_a_reserves,
                token_b_reserves
            )?;
            
            // Check minimum output
            if amount_out < min_amount_out {
                return Err(ErrorCode::SlippageTooHigh.into());
            }
            
            // Execute the swap
            // ...transfer tokens...
            
            Ok(())
        }
        "#;

pub const DETECTION_1: &'static str =
    "Identify time-sensitive operations that affect pricing or value";

pub const DETECTION_2: &'static str =
    "Check for lack of commit-reveal patterns where appropriate";

pub const DETECTION_3: &'static str =
    "Evaluate the system's susceptibility to transaction ordering manipulation";

pub const DETECTION_4: &'static str =
    "Review the protocol for MEV (Miner/Maximal Extractable Value) risks";

pub const DETECTION_5: &'static str =
    "Analyze the transparency of pending transaction information";

pub const REMEDIATION_1: &'static str =
    "Implement commit-reveal schemes for sensitive operations";

pub const REMEDIATION_2: &'static str =
    "Use batch processing to handle multiple transactions together";

pub const REMEDIATION_3: &'static str =
    "Add time delays where appropriate to reduce the advantage of front-running";

pub const REMEDIATION_4: &'static str =
    "Implement price oracles instead of relying solely on direct market prices";

pub const REMEDIATION_5: &'static str =
    "Design interfaces that limit the information available to potential attackers";

/// The platforms on which this class is commonly found.
pub open spec fn platform_names() -> Seq<&'static str> {
    seq!["Solana", "NEAR", "Polkadot", "CosmWasm"]
}

/// What an auditor looks for, in order.
pub open spec fn detection_texts() -> Seq<&'static str> {
    seq![DETECTION_1, DETECTION_2, DETECTION_3, DETECTION_4, DETECTION_5]
}

/// How to mend or avoid the flaw, in order.
pub open spec fn remediation_texts() -> Seq<&'static str> {
    seq![REMEDIATION_1, REMEDIATION_2, REMEDIATION_3, REMEDIATION_4, REMEDIATION_5]
}

/// Represents a front-running vulnerability example
pub struct FrontRunningVulnerability;

impl Vulnerability for FrontRunningVulnerability {
    fn name(&self) -> (text: &'static str)
        ensures
            text == NAME,
    {
        NAME
    }

    fn description(&self) -> (text: &'static str)
        ensures
            text == DESCRIPTION,
    {
        DESCRIPTION
    }

    fn affected_platforms(&self) -> (list: Vec<&'static str>)
        ensures
            list@ == platform_names(),
    {
        let list = vec!["Solana", "NEAR", "Polkadot", "CosmWasm"];
        assert(list@ =~= platform_names());
        list
    }

    fn exploit_example(&self) -> (text: &'static str)
        ensures
            text == EXPLOIT_EXAMPLE,
    {
        EXPLOIT_EXAMPLE
    }

    fn detection_methods(&self) -> (list: Vec<&'static str>)
        ensures
            list@ == detection_texts(),
    {
        let list = vec![DETECTION_1, DETECTION_2, DETECTION_3, DETECTION_4, DETECTION_5];
        assert(list@ =~= detection_texts());
        list
    }

    fn remediation(&self) -> (list: Vec<&'static str>)
        ensures
            list@ == remediation_texts(),
    {
        let list = vec![REMEDIATION_1, REMEDIATION_2, REMEDIATION_3, REMEDIATION_4, REMEDIATION_5];
        assert(list@ =~= remediation_texts());
        list
    }
}

} // verus!
