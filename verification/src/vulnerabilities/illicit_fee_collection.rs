//! # Illicit Fee Collection Vulnerability
//!
//! Illicit fee collection vulnerabilities occur when a smart contract allows
//! unauthorized or excessive fees to be extracted from users, either through
//! direct manipulation of fee parameters or through more subtle mechanisms
//! that redirect value to unintended recipients.
//!
//! These vulnerabilities can exist in various forms, from fee parameters that
//! can be manipulated to outright theft of funds.

use crate::vulnerabilities::Vulnerability;
use vstd::prelude::*;

pub mod secure;
pub mod vulnerable;

verus! {

pub const NAME: &'static str = "Illicit Fee Collection Vulnerability";

pub const DESCRIPTION: &'static str =
    "Occurs when a smart contract allows unauthorized or excessive fees to be \
    extracted from users, either through direct manipulation of fee parameters \
    or through more subtle mechanisms that redirect value to unintended recipients.";

pub const EXPLOIT_EXAMPLE: &'static str = r#"
        // Vulnerable function with manipulable fee destination
        pub fn swap_tokens(ctx: Context<SwapTokens>, amount_in: u64) -> Result<()> {
            // Calculate the output amount
            let fee_percentage = ctx.accounts.pool.fee_percentage;
            let fee_amount = amount_in * fee_percentage / 10000; // Fee in basis points
            
            // VULNERABILITY: The fee recipient can be changed by anyone
            // or is not properly validated against an authorized recipient
            let amount_out = calculate_swap_amount(amount_in - fee_amount);
            
            // Transfer tokens
            transfer_tokens_from(ctx.accounts.user, ctx.accounts.pool, amount_in)?;
            transfer_tokens_to(ctx.accounts.pool, ctx.accounts.user, amount_out)?;
            
            // Send fee to fee collector
            // VULNERABILITY: No validation of fee_collector account
            transfer_tokens_to(ctx.accounts.pool, ctx.accounts.fee_collector, fee_amount)?;
            
            Ok(())
        }
        
        // Vulnerable function with hidden fee
        pub fn provide_liquidity(ctx: Context<ProvideLiquidity>, amount_a: u64, amount_b: u64) -> Result<()> {
            // VULNERABILITY: Hidden fee taken from the provided liquidity
            let actual_amount_a = amount_a * 9950 / 10000; // Hidden 0.5% fee
            let actual_amount_b = amount_b * 9950 / 10000; // Hidden 0.5% fee
            
            // The hidden fee is silently kept in the contract or sent elsewhere
            let fee_a = amount_a - actual_amount_a;
            let fee_b = amount_b - actual_amount_b;
            
            // Process the liquidity provision with the reduced amounts
            // but user thinks they're getting LP tokens for the full amount
            process_liquidity_provision(ctx, actual_amount_a, actual_amount_b)?;
            
            // Hidden fee transfer
            transfer_tokens_to(ctx.accounts.pool, ctx.accounts.hidden_fee_collector, fee_a)?;
            transfer_tokens_to(ctx.accounts.pool, ctx.accounts.hidden_fee_collector, fee_b)?;
            
            Ok(())
        }
        "#;

pub const DETECTION_1: &'static str =
    "Examine fee calculation logic for manipulation opportunities";

pub const DETECTION_2: &'static str =
    "Check validation of fee recipient addresses";

pub const DETECTION_3: &'static str =
    "Compare documented fees with actual implementation";

pub const DETECTION_4: &'static str =
    "Trace token flows to identify potential fee leakage";

pub const DETECTION_5: &'static str =
    "Look for fee parameters that can be changed without proper authorization";

pub const REMEDIATION_1: &'static str =
    "Implement strict validation of fee recipients";

pub const REMEDIATION_2: &'static str =
    "Use access control for fee parameter changes";

pub const REMEDIATION_3: &'static str =
    "Document all fees transparently in code and user interfaces";

pub const REMEDIATION_4: &'static str =
    "Implement time-locks for fee parameter changes";

pub const REMEDIATION_5: &'static str =
    "Use multi-signature or DAO governance for fee-related changes";

/// The platforms on which this class is commonly found.
pub open spec fn platform_names() -> Seq<&'static str> {
    seq!["Solana", "NEAR", "Polkadot", "All DeFi platforms"]
}

/// What an auditor looks for, in order.
pub open spec fn detection_texts() -> Seq<&'static str> {
    seq![DETECTION_1, DETECTION_2, DETECTION_3, DETECTION_4, DETECTION_5]
}

/// How to mend or avoid the flaw, in order.
pub open spec fn remediation_texts() -> Seq<&'static str> {
    seq![REMEDIATION_1, REMEDIATION_2, REMEDIATION_3, REMEDIATION_4, REMEDIATION_5]
}

/// Represents an illicit fee collection vulnerability example
pub struct IllicitFeeVulnerability;

impl Vulnerability for IllicitFeeVulnerability {
    fn name(&self) -> (text: &'static str)
        ensures
            text == NAME,
    {
        NAME
    }

    fn description(&self) -> (text: &'static str)
        ensures
            text == DESCRIPTION,
    {
        DESCRIPTION
    }

    fn affected_platforms(&self) -> (list: Vec<&'static str>)
        ensures
            list@ == platform_names(),
    {
        let list = vec!["Solana", "NEAR", "Polkadot", "All DeFi platforms"];
        assert(list@ =~= platform_names());
        list
    }

    fn exploit_example(&self) -> (text: &'static str)
        ensures
            text == EXPLOIT_EXAMPLE,
    {
        EXPLOIT_EXAMPLE
    }

    fn detection_methods(&self) -> (list: Vec<&'static str>)
        ensures
            list@ == detection_texts(),
    {
        let list = vec![DETECTION_1, DETECTION_2, DETECTION_3, DETECTION_4, DETECTION_5];
        assert(list@ =~= detection_texts());
        list
    }

    fn remediation(&self) -> (list: Vec<&'static str>)
        ensures
            list@ == remediation_texts(),
    {
        let list = vec![REMEDIATION_1, REMEDIATION_2, REMEDIATION_3, REMEDIATION_4, REMEDIATION_5];
        assert(list@ =~= remediation_texts());
        list
    }
}

} // verus!
