//! # Random Number Manipulation Vulnerability
//!
//! Random number manipulation vulnerabilities occur when a smart contract
//! relies on sources of randomness that can be predicted or manipulated by
//! attackers. This can lead to exploitation of games, lotteries, NFT minting,
//! or any other functionality that requires unpredictable random values.
//!
//! In blockchain environments, achieving true randomness is challenging due to
//! the deterministic nature of transaction processing.

use crate::vulnerabilities::Vulnerability;
use vstd::prelude::*;

pub mod secure;
pub mod vulnerable;

verus! {

pub const NAME: &'static str = "Random Number Manipulation Vulnerability";

pub const DESCRIPTION: &'static str =
    "Occurs when a smart contract relies on sources of randomness that can be \
    predicted or manipulated by attackers. This can lead to exploitation of games, \
    lotteries, NFT minting, or any other functionality that requires unpredictable random values.";

pub const EXPLOIT_EXAMPLE: &'static str = r#"
        // Vulnerable function with predictable randomness
        pub fn select_winner(ctx: Context<SelectWinner>) -> Result<()> {
            let lottery = &mut ctx.accounts.lottery;
            
            // VULNERABILITY: Using block timestamp as randomness source
            let current_timestamp = Clock::get()?.unix_timestamp as u64;
            
            // VULNERABILITY: Predictable hash calculation
            let seed = lottery.ticket_count.to_le_bytes()
                .iter()
                .chain(current_timestamp.to_le_bytes().iter())
                .copied()
                .collect::<Vec<u8>>();
                
            let hash = hash::hash(&seed);
            
            // Select winner based on this hash
            let winner_index = (u64::from_le_bytes(hash.to_bytes()[0..8].try_into().unwrap())) % lottery.ticket_count;
            lottery.winner = lottery.participants[winner_index as usize];
            
            Ok(())
        }
        
        // Vulnerable function for NFT attribute generation
        pub fn mint_random_nft(ctx: Context<MintNFT>) -> Result<()> {
            let mint_data = &mut ctx.accounts.mint_data;
            
            // VULNERABILITY: Using transaction signature as randomness source
            // This can be manipulated by miners/validators or predicted in advance
            let signature = ctx.accounts.authority.key().to_bytes();
            
            // Generate "random" attributes
            let rarity = (signature[0] % 100) + 1; // 1-100 rarity
            let strength = (signature[1] % 50) + 1; // 1-50 strength
            let agility = (signature[2] % 50) + 1; // 1-50 agility
            
            // Set NFT attributes
            mint_data.rarity = rarity;
            mint_data.strength = strength;
            mint_data.agility = agility;
            
            // Mint NFT
            // ...minting logic...
            
            Ok(())
        }
        "#;

pub const DETECTION_1: &'static str =
    "Identify all sources of randomness in the contract";

pub const DETECTION_2: &'static str =
    "Check if randomness sources are predictable (block data, timestamps)";

pub const DETECTION_3: &'static str =
    "Look for randomness derived from user-controllable inputs";

pub const DETECTION_4: &'static str =
    "Verify if randomness can be manipulated by validators/miners";

pub const DETECTION_5: &'static str =
    "Check if pseudo-random number generators (PRNGs) are properly seeded";

pub const REMEDIATION_1: &'static str =
    "Use a verifiable random function (VRF) service where available";

pub const REMEDIATION_2: &'static str =
    "Implement commit-reveal schemes for randomness";

pub const REMEDIATION_3: &'static str =
    "Combine multiple sources of entropy that cannot all be controlled";

pub const REMEDIATION_4: &'static str =
    "Consider using off-chain oracles for randomness when appropriate";

pub const REMEDIATION_5: &'static str =
    "For low-security needs, use cryptographic hashing of multiple inputs";

/// The platforms on which this class is commonly found.
pub open spec fn platform_names() -> Seq<&'static str> {
    seq!["Solana", "NEAR", "Polkadot", "All blockchain platforms"]
}

/// What an auditor looks for, in order.
pub open spec fn detection_texts() -> Seq<&'static str> {
    seq![DETECTION_1, DETECTION_2, DETECTION_3, DETECTION_4, DETECTION_5]
}

/// How to mend or avoid the flaw, in order.
pub open spec fn remediation_texts() -> Seq<&'static str> {
    seq![REMEDIATION_1, REMEDIATION_2, REMEDIATION_3, REMEDIATION_4, REMEDIATION_5]
}

/// Represents a random number manipulation vulnerability example
pub struct RandomManipulationVulnerability;

impl Vulnerability for RandomManipulationVulnerability {
    fn name(&self) -> (text: &'static str)
        ensures
            text == NAME,
    {
        NAME
    }

    fn description(&self) -> (text: &'static str)
        ensures
            text == DESCRIPTION,
    {
        DESCRIPTION
    }

    fn affected_platforms(&self) -> (list: Vec<&'static str>)
        ensures
            list@ == platform_names(),
    {
        let list = vec!["Solana", "NEAR", "Polkadot", "All blockchain platforms"];
        assert(list@ =~= platform_names());
        list
    }

    fn exploit_example(&self) -> (text: &'static str)
        ensures
            text == EXPLOIT_EXAMPLE,
    {
        EXPLOIT_EXAMPLE
    }

    fn detection_methods(&self) -> (list: Vec<&'static str>)
        ensures
            list@ == detection_texts(),
    {
        let list = vec![DETECTION_1, DETECTION_2, DETECTION_3, DETECTION_4, DETECTION_5];
        assert(list@ =~= detection_texts());
        list
    }

    fn remediation(&self) -> (list: Vec<&'static str>)
        ensures
            list@ == remediation_texts(),
    {
        let list = vec![REMEDIATION_1, REMEDIATION_2, REMEDIATION_3, REMEDIATION_4, REMEDIATION_5];
        assert(list@ =~= remediation_texts());
        list
    }
}

} // verus!
