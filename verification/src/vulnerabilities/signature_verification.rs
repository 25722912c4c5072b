//! # Signature Verification Bypass Vulnerability
//!
//! Signature verification bypass vulnerabilities occur when a smart contract improperly validates
//! signatures, allowing attackers to spoof authorization or execute unauthorized operations.
//!
//! In Rust smart contracts, these vulnerabilities can manifest through:
//! - Incorrect signature verification algorithms
//! - Failing to check all relevant transaction data when verifying signatures
//! - Replay attacks due to missing or improper nonce handling
//! - Signature malleability issues

use crate::vulnerabilities::Vulnerability;
use vstd::prelude::*;

pub mod secure;
pub mod vulnerable;

verus! {

pub const NAME: &'static str = "Signature Verification Bypass Vulnerability";

pub const DESCRIPTION: &'static str =
    "Occurs when a smart contract fails to properly validate cryptographic signatures, \
    allowing attackers to forge authorizations or bypass security checks. Common issues include \
    improper verification logic, missing replay protection, and signature malleability problems.";

pub const EXPLOIT_EXAMPLE: &'static str = r#"
        // Vulnerable signature verification that doesn't check all relevant data
        pub fn process_authorized_transaction(
            ctx: Context<AuthorizedTransaction>,
            amount: u64,
            signature: [u8; 64],
        ) -> Result<()> {
            let signer_pubkey = ctx.accounts.authority.key();
            let message = amount.to_le_bytes();
            
            // VULNERABILITY: Only signing the amount, not including recipient or nonce
            // This allows signature reuse for different recipients
            if !verify_signature(&signer_pubkey, &message, &signature) {
                return Err(ErrorCode::InvalidSignature.into());
            }
            
            // Process the transfer...
            transfer_funds(ctx.accounts.from.key, ctx.accounts.to.key, amount)?;
            
            Ok(())
        }
        "#;

pub const DETECTION_1: &'static str =
    "Check that all relevant transaction data is included in the signed message (amount, recipient, timestamp/nonce)";

pub const DETECTION_2: &'static str =
    "Verify that signatures cannot be reused across different contexts";

pub const DETECTION_3: &'static str =
    "Ensure proper nonce handling to prevent replay attacks";

pub const DETECTION_4: &'static str =
    "Check for signature malleability issues in the verification logic";

pub const DETECTION_5: &'static str =
    "Validate that the signature verification is using appropriate cryptographic algorithms";

pub const REMEDIATION_1: &'static str =
    "Include all relevant transaction data in the signed message";

pub const REMEDIATION_2: &'static str =
    "Implement proper nonce handling to prevent replay attacks";

pub const REMEDIATION_3: &'static str =
    "Use established cryptographic libraries for signature verification";

pub const REMEDIATION_4: &'static str =
    "Add transaction context to the signed message (program ID, instruction type)";

pub const REMEDIATION_5: &'static str =
    "Implement domain separation in signatures to prevent cross-contract replay";

/// The platforms on which this class is commonly found.
pub open spec fn platform_names() -> Seq<&'static str> {
    seq!["Solana", "NEAR", "Polkadot", "CosmWasm"]
}

/// What an auditor looks for, in order.
pub open spec fn detection_texts() -> Seq<&'static str> {
    seq![DETECTION_1, DETECTION_2, DETECTION_3, DETECTION_4, DETECTION_5]
}

/// How to mend or avoid the flaw, in order.
pub open spec fn remediation_texts() -> Seq<&'static str> {
    seq![REMEDIATION_1, REMEDIATION_2, REMEDIATION_3, REMEDIATION_4, REMEDIATION_5]
}

/// Represents a signature verification bypass vulnerability example
pub struct SignatureVerificationVulnerability;

impl Vulnerability for SignatureVerificationVulnerability {
    fn name(&self) -> (text: &'static str)
        ensures
            text == NAME,
    {
        NAME
    }

    fn description(&self) -> (text: &'static str)
        ensures
            text == DESCRIPTION,
    {
        DESCRIPTION
    }

    fn affected_platforms(&self) -> (list: Vec<&'static str>)
        ensures
            list@ == platform_names(),
    {
        let list = vec!["Solana", "NEAR", "Polkadot", "CosmWasm"];
        assert(list@ =~= platform_names());
        list
    }

    fn exploit_example(&self) -> (text: &'static str)
        ensures
            text == EXPLOIT_EXAMPLE,
    {
        EXPLOIT_EXAMPLE
    }

    fn detection_methods(&self) -> (list: Vec<&'static str>)
        ensures
            list@ == detection_texts(),
    {
        let list = vec![DETECTION_1, DETECTION_2, DETECTION_3, DETECTION_4, DETECTION_5];
        assert(list@ =~= detection_texts());
        list
    }

    fn remediation(&self) -> (list: Vec<&'static str>)
        ensures
            list@ == remediation_texts(),
    {
        let list = vec![REMEDIATION_1, REMEDIATION_2, REMEDIATION_3, REMEDIATION_4, REMEDIATION_5];
        assert(list@ =~= remediation_texts());
        list
    }
}

} // verus!
