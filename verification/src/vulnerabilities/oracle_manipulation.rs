//! # Oracle Manipulation Vulnerability
//!
//! Oracle manipulation vulnerabilities occur when a smart contract relies on external
//! data sources (oracles) that can be manipulated or tampered with, leading to
//! incorrect contract behavior, price manipulation, or other exploitative scenarios.
//!
//! This is particularly important in DeFi applications on any blockchain platform.

use crate::vulnerabilities::Vulnerability;
use vstd::prelude::*;

pub mod secure;
pub mod vulnerable;

verus! {

pub const NAME: &'static str = "Oracle Manipulation Vulnerability";

pub const DESCRIPTION: &'static str =
    "Occurs when a smart contract relies on external data sources (oracles) \
    that can be manipulated, leading to incorrect contract behavior, \
    price manipulation, or other exploitative scenarios.";

pub const EXPLOIT_EXAMPLE: &'static str = r#"
        // Vulnerable function that relies on a single oracle
        pub fn liquidate_position(ctx: Context<Liquidate>) -> Result<()> {
            // VULNERABILITY: Single oracle used for critical price data
            let token_price = ctx.accounts.price_oracle.get_price()?;
            
            let collateral_value = ctx.accounts.user_position.collateral_amount * token_price;
            let loan_value = ctx.accounts.user_position.loan_amount;
            
            // If collateral value falls below threshold, liquidate
            if collateral_value < loan_value * 110 / 100 {
                // Liquidation logic...
                liquidate_user_position(ctx)?;
            } else {
                return Err(ErrorCode::CannotLiquidate.into());
            }
            
            Ok(())
        }
        
        // Vulnerable function with time-based vulnerability
        pub fn settle_options(ctx: Context<SettleOptions>) -> Result<()> {
            // VULNERABILITY: Uses the latest price without considering manipulation
            // An attacker could manipulate the price right before expiration
            let settlement_price = ctx.accounts.price_oracle.get_current_price()?;
            
            // Settle all options based on this price
            for option in ctx.accounts.option_positions.iter() {
                settle_option(option, settlement_price)?;
            }
            
            Ok(())
        }
        "#;

pub const DETECTION_1: &'static str =
    "Check if the contract relies on a single oracle for critical price data";

pub const DETECTION_2: &'static str =
    "Examine if there are time-weighted average price (TWAP) mechanisms";

pub const DETECTION_3: &'static str =
    "Verify if the contract has mechanisms to detect abnormal price movements";

pub const DETECTION_4: &'static str =
    "Look for flash loan attack vectors related to price oracles";

pub const DETECTION_5: &'static str =
    "Check for oracle freshness verification (staleness checks)";

pub const REMEDIATION_1: &'static str =
    "Use multiple independent oracles and aggregate their values (e.g., median)";

pub const REMEDIATION_2: &'static str =
    "Implement time-weighted average prices (TWAP) to prevent manipulation";

pub const REMEDIATION_3: &'static str =
    "Add price deviation checks to detect abnormal movements";

pub const REMEDIATION_4: &'static str =
    "Include freshness checks to ensure oracle data is recent";

pub const REMEDIATION_5: &'static str =
    "Consider using decentralized oracles like Chainlink where available";

/// The platforms on which this class is commonly found.
pub open spec fn platform_names() -> Seq<&'static str> {
    seq!["Solana", "NEAR", "Polkadot", "All DeFi platforms"]
}

/// What an auditor looks for, in order.
pub open spec fn detection_texts() -> Seq<&'static str> {
    seq![DETECTION_1, DETECTION_2, DETECTION_3, DETECTION_4, DETECTION_5]
}

/// How to mend or avoid the flaw, in order.
pub open spec fn remediation_texts() -> Seq<&'static str> {
    seq![REMEDIATION_1, REMEDIATION_2, REMEDIATION_3, REMEDIATION_4, REMEDIATION_5]
}

/// Represents an oracle manipulation vulnerability example
pub struct OracleManipulationVulnerability;

impl Vulnerability for OracleManipulationVulnerability {
    fn name(&self) -> (text: &'static str)
        ensures
            text == NAME,
    {
        NAME
    }

    fn description(&self) -> (text: &'static str)
        ensures
            text == DESCRIPTION,
    {
        DESCRIPTION
    }

    fn affected_platforms(&self) -> (list: Vec<&'static str>)
        ensures
            list@ == platform_names(),
    {
        let list = vec!["Solana", "NEAR", "Polkadot", "All DeFi platforms"];
        assert(list@ =~= platform_names());
        list
    }

    fn exploit_example(&self) -> (text: &'static str)
        ensures
            text == EXPLOIT_EXAMPLE,
    {
        EXPLOIT_EXAMPLE
    }

    fn detection_methods(&self) -> (list: Vec<&'static str>)
        ensures
            list@ == detection_texts(),
    {
        let list = vec![DETECTION_1, DETECTION_2, DETECTION_3, DETECTION_4, DETECTION_5];
        assert(list@ =~= detection_texts());
        list
    }

    fn remediation(&self) -> (list: Vec<&'static str>)
        ensures
            list@ == remediation_texts(),
    {
        let list = vec![REMEDIATION_1, REMEDIATION_2, REMEDIATION_3, REMEDIATION_4, REMEDIATION_5];
        assert(list@ =~= remediation_texts());
        list
    }
}

} // verus!
