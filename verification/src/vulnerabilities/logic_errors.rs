//! # Logic Error Vulnerability
//!
//! Logic error vulnerabilities occur when a smart contract's business logic
//! is flawed, causing unexpected behavior or allowing exploitation even when
//! the code executes as written. These errors are often subtle and specific
//! to the contract's intended functionality.
//!
//! In Rust smart contracts, logic errors can manifest as incorrect state transitions,
//! faulty validation, or improper handling of edge cases.

use crate::vulnerabilities::Vulnerability;
use vstd::prelude::*;

pub mod secure;
pub mod vulnerable;

verus! {

pub const NAME: &'static str = "Logic Error Vulnerability";

pub const DESCRIPTION: &'static str =
    "Occurs when a smart contract's business logic is flawed, causing unexpected \
    behavior or allowing exploitation even when the code executes as written. \
    These errors are often subtle and specific to the contract's intended functionality.";

pub const EXPLOIT_EXAMPLE: &'static str = r#"
        // Vulnerable function with incorrect business logic
        pub fn claim_rewards(ctx: Context<ClaimRewards>) -> Result<()> {
            let user = &ctx.accounts.user;
            let mut rewards_account = &mut ctx.accounts.rewards_account;
            
            // VULNERABILITY: Incorrect reward calculation
            // This only accounts for the current stake amount and time delta
            // but doesn't reset the last_claim_time
            let current_time = Clock::get()?.unix_timestamp as u64;
            let time_delta = current_time - user.last_claim_time;
            
            // Calculate rewards
            let reward_rate = 100; // Example: 100 tokens per day per staked token
            let reward_amount = user.staked_amount * reward_rate * time_delta / 86400;
            
            // Transfer rewards
            rewards_account.amount -= reward_amount;
            user.reward_balance += reward_amount;
            
            // VULNERABILITY: Missing update to last_claim_time
            // This allows the user to claim multiple times for the same period
            
            Ok(())
        }
        
        // Vulnerable function with state machine flaw
        pub fn finalize_auction(ctx: Context<FinalizeAuction>) -> Result<()> {
            let auction = &mut ctx.accounts.auction;
            
            // VULNERABILITY: Insufficient state validation
            // Only checks if auction is active, but not if it has ended
            if auction.state != AuctionState::Active {
                return Err(ErrorCode::AuctionNotActive.into());
            }
            
            // Get the highest bidder
            let highest_bidder = auction.highest_bidder.ok_or(ErrorCode::NoBids)?;
            let highest_bid = auction.highest_bid;
            
            // Transfer assets
            transfer_asset(auction.asset_mint, auction.authority, highest_bidder, 1)?;
            transfer_tokens(auction.payment_mint, highest_bidder, auction.authority, highest_bid)?;
            
            // Update state
            auction.state = AuctionState::Ended;
            
            Ok(())
        }
        "#;

pub const DETECTION_1: &'static str =
    "Review business logic against functional requirements";

pub const DETECTION_2: &'static str =
    "Model state transitions and verify correct handling of all states";

pub const DETECTION_3: &'static str =
    "Check for missing or incorrect state updates";

pub const DETECTION_4: &'static str =
    "Verify mathematical calculations, especially for financial operations";

pub const DETECTION_5: &'static str =
    "Test with a variety of realistic and edge-case scenarios";

pub const REMEDIATION_1: &'static str =
    "Implement comprehensive state validation";

pub const REMEDIATION_2: &'static str =
    "Use state machines with explicit transitions";

pub const REMEDIATION_3: &'static str =
    "Add safeguards for critical calculations";

pub const REMEDIATION_4: &'static str =
    "Validate business logic with formal verification where possible";

pub const REMEDIATION_5: &'static str =
    "Extensively test all possible execution paths";

/// The platforms on which this class is commonly found.
pub open spec fn platform_names() -> Seq<&'static str> {
    seq!["Solana", "NEAR", "Polkadot", "All Rust-based contracts"]
}

/// What an auditor looks for, in order.
pub open spec fn detection_texts() -> Seq<&'static str> {
    seq![DETECTION_1, DETECTION_2, DETECTION_3, DETECTION_4, DETECTION_5]
}

/// How to mend or avoid the flaw, in order.
pub open spec fn remediation_texts() -> Seq<&'static str> {
    seq![REMEDIATION_1, REMEDIATION_2, REMEDIATION_3, REMEDIATION_4, REMEDIATION_5]
}

/// Represents a logic error vulnerability example
pub struct LogicErrorVulnerability;

impl Vulnerability for LogicErrorVulnerability {
    fn name(&self) -> (text: &'static str)
        ensures
            text == NAME,
    {
        NAME
    }

    fn description(&self) -> (text: &'static str)
        ensures
            text == DESCRIPTION,
    {
        DESCRIPTION
    }

    fn affected_platforms(&self) -> (list: Vec<&'static str>)
        ensures
            list@ == platform_names(),
    {
        let list = vec!["Solana", "NEAR", "Polkadot", "All Rust-based contracts"];
        assert(list@ =~= platform_names());
        list
    }

    fn exploit_example(&self) -> (text: &'static str)
        ensures
            text == EXPLOIT_EXAMPLE,
    {
        EXPLOIT_EXAMPLE
    }

    fn detection_methods(&self) -> (list: Vec<&'static str>)
        ensures
            list@ == detection_texts(),
    {
        let list = vec![DETECTION_1, DETECTION_2, DETECTION_3, DETECTION_4, DETECTION_5];
        assert(list@ =~= detection_texts());
        list
    }

    fn remediation(&self) -> (list: Vec<&'static str>)
        ensures
            list@ == remediation_texts(),
    {
        let list = vec![REMEDIATION_1, REMEDIATION_2, REMEDIATION_3, REMEDIATION_4, REMEDIATION_5];
        assert(list@ =~= remediation_texts());
        list
    }
}

} // verus!
