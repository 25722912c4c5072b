//! # Flash Loan Vulnerability
//!
//! Flash loan vulnerabilities occur when a smart contract doesn't properly account
//! for the possibility of atomic multi-step transactions enabled by flash loans.
//! These attacks allow malicious actors to temporarily control large amounts of assets
//! to manipulate markets, exploit pricing mechanisms, or drain funds from vulnerable contracts.
//!
//! In Rust-based smart contracts, these vulnerabilities can manifest in various ways,
//! particularly in DeFi applications across different blockchain platforms.

use crate::vulnerabilities::Vulnerability;
use vstd::prelude::*;

pub mod secure;
pub mod vulnerable;

verus! {

pub const NAME: &'static str = "Flash Loan Vulnerability";

pub const DESCRIPTION: &'static str =
    "Occurs when a smart contract doesn't properly account for the possibility of \
    atomic multi-step transactions enabled by flash loans. These attacks allow malicious \
    actors to temporarily control large amounts of assets to manipulate markets, \
    exploit pricing mechanisms, or drain funds from vulnerable contracts.";

pub const EXPLOIT_EXAMPLE: &'static str = r#"
        // Vulnerable price calculation that can be manipulated by flash loans
        pub fn calculate_collateral_value(ctx: Context<CalculateValue>) -> Result<u64> {
            // VULNERABILITY: Using a single DEX for price discovery
            // A flash loan could be used to manipulate this price temporarily
            let token_price = ctx.accounts.dex_market.get_current_price()?;
            
            let collateral_value = ctx.accounts.user_collateral.amount * token_price;
            
            Ok(collateral_value)
        }
        
        // Vulnerable liquidation function susceptible to flash loan attacks
        pub fn liquidate_position(ctx: Context<Liquidate>) -> Result<()> {
            // Get the current value of collateral
            let collateral_token_price = ctx.accounts.token_oracle.get_price()?;
            let collateral_value = ctx.accounts.position.collateral_amount * collateral_token_price;
            
            // Check if position is undercollateralized
            let borrowed_value = ctx.accounts.position.borrowed_amount;
            
            // VULNERABILITY: Liquidation threshold can be manipulated by flash loans
            // An attacker could use a flash loan to manipulate the token price,
            // trigger liquidation, and then purchase the collateral at a discount
            if collateral_value < borrowed_value * 110 / 100 {
                // Position is undercollateralized, proceed with liquidation
                liquidate_and_distribute(ctx)?;
            } else {
                return Err(ErrorCode::PositionNotLiquidatable.into());
            }
            
            Ok(())
        }
        "#;

pub const DETECTION_1: &'static str =
    "Examine price oracle implementations for manipulation vulnerabilities";

pub const DETECTION_2: &'static str =
    "Check for single-source price dependencies";

pub const DETECTION_3: &'static str =
    "Review borrowing/lending protocols for proper collateralization checks";

pub const DETECTION_4: &'static str =
    "Look for time-weighted average price (TWAP) implementation";

pub const DETECTION_5: &'static str =
    "Analyze liquidation mechanisms for potential abuse";

pub const REMEDIATION_1: &'static str =
    "Use time-weighted average prices (TWAP) instead of spot prices";

pub const REMEDIATION_2: &'static str =
    "Implement multiple price sources and use median or other robust aggregation";

pub const REMEDIATION_3: &'static str =
    "Add circuit breakers for unusual price movements";

pub const REMEDIATION_4: &'static str =
    "Consider transaction sequence analysis to detect flash loan attacks";

pub const REMEDIATION_5: &'static str =
    "Implement rate limiting for large transactions";

/// The platforms on which this class is commonly found.
pub open spec fn platform_names() -> Seq<&'static str> {
    seq!["Solana", "NEAR", "All DeFi platforms"]
}

/// What an auditor looks for, in order.
pub open spec fn detection_texts() -> Seq<&'static str> {
    seq![DETECTION_1, DETECTION_2, DETECTION_3, DETECTION_4, DETECTION_5]
}

/// How to mend or avoid the flaw, in order.
pub open spec fn remediation_texts() -> Seq<&'static str> {
    seq![REMEDIATION_1, REMEDIATION_2, REMEDIATION_3, REMEDIATION_4, REMEDIATION_5]
}

/// Represents a flash loan vulnerability example
pub struct FlashLoanVulnerability;

impl Vulnerability for FlashLoanVulnerability {
    fn name(&self) -> (text: &'static str)
        ensures
            text == NAME,
    {
        NAME
    }

    fn description(&self) -> (text: &'static str)
        ensures
            text == DESCRIPTION,
    {
        DESCRIPTION
    }

    fn affected_platforms(&self) -> (list: Vec<&'static str>)
        ensures
            list@ == platform_names(),
    {
        let list = vec!["Solana", "NEAR", "All DeFi platforms"];
        assert(list@ =~= platform_names());
        list
    }

    fn exploit_example(&self) -> (text: &'static str)
        ensures
            text == EXPLOIT_EXAMPLE,
    {
        EXPLOIT_EXAMPLE
    }

    fn detection_methods(&self) -> (list: Vec<&'static str>)
        ensures
            list@ == detection_texts(),
    {
        let list = vec![DETECTION_1, DETECTION_2, DETECTION_3, DETECTION_4, DETECTION_5];
        assert(list@ =~= detection_texts());
        list
    }

    fn remediation(&self) -> (list: Vec<&'static str>)
        ensures
            list@ == remediation_texts(),
    {
        let list = vec![REMEDIATION_1, REMEDIATION_2, REMEDIATION_3, REMEDIATION_4, REMEDIATION_5];
        assert(list@ =~= remediation_texts());
        list
    }
}

} // verus!
