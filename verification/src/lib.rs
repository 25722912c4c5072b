//! # Rust Smart Contract Vulnerabilities
//!
//! This library provides examples and explanations of common vulnerabilities
//! found in Rust-based smart contracts across various blockchain platforms,
//! and a pattern-based scanner for smart-contract source text.
//!
//! The code examples are intended for educational purposes to help auditors
//! identify and understand these vulnerabilities.

use vstd::prelude::*;

pub mod collections;
pub mod scanner;
pub mod text;
pub mod utils;
pub mod vulnerabilities;

pub use vulnerabilities::access_control::AccessControlVulnerability;
pub use vulnerabilities::account_confusion::AccountConfusionVulnerability;
pub use vulnerabilities::denial_of_service::DoSVulnerability;
pub use vulnerabilities::flash_loan::FlashLoanVulnerability;
pub use vulnerabilities::front_running::FrontRunningVulnerability;
pub use vulnerabilities::illicit_fee_collection::IllicitFeeVulnerability;
pub use vulnerabilities::inadequate_events::InadequateEventsVulnerability;
pub use vulnerabilities::logic_errors::LogicErrorVulnerability;
pub use vulnerabilities::oracle_manipulation::OracleManipulationVulnerability;
pub use vulnerabilities::overflow::OverflowVulnerability;
pub use vulnerabilities::random_manipulation::RandomManipulationVulnerability;
pub use vulnerabilities::reentrancy::ReentrancyVulnerability;
pub use vulnerabilities::signature_verification::SignatureVerificationVulnerability;
pub use vulnerabilities::storage_management::StorageManagementVulnerability;
pub use vulnerabilities::unchecked_inputs::UncheckedInputsVulnerability;

verus! {

/// Version of the library
pub const VERSION: &'static str = "0.1.0";

/// Custom error types
#[derive(Debug)]
pub enum Error {
    Reentrancy,
    Overflow,
    InvalidInput,
    OracleManipulation,
    AccessControl,
    DoS,
    IllicitFee,
    FlashLoan,
    LogicError,
    RandomManipulation,
    SignatureVerification,
    AccountConfusion,
    FrontRunning,
    InadequateEvents,
    StorageManagement,
    Generic(String),
}

impl Error {
    /// What the error says, in words.
    pub open spec fn message_text(&self) -> Seq<char> {
        match self {
            Error::Reentrancy => "Reentrancy attack detected"@,
            Error::Overflow => "Integer overflow detected"@,
            Error::InvalidInput => "Invalid input detected"@,
            Error::OracleManipulation => "Oracle manipulation detected"@,
            Error::AccessControl => "Access control violation"@,
            Error::DoS => "Denial of service condition"@,
            Error::IllicitFee => "Illicit fee detected"@,
            Error::FlashLoan => "Flash loan attack detected"@,
            Error::LogicError => "Logic error detected"@,
            Error::RandomManipulation => "Random manipulation detected"@,
            Error::SignatureVerification => "Signature verification bypass detected"@,
            Error::AccountConfusion => "Account confusion detected"@,
            Error::FrontRunning => "Front-running detected"@,
            Error::InadequateEvents => "Inadequate event emission detected"@,
            Error::StorageManagement => "Storage management issue detected"@,
            Error::Generic(detail) => "Generic error: "@ + detail@,
        }
    }

    /// Writes out what the error says.
    pub fn message(&self) -> (text: String)
        ensures
            text@ == self.message_text(),
    {
        match self {
            Error::Reentrancy => "Reentrancy attack detected".to_owned(),
            Error::Overflow => "Integer overflow detected".to_owned(),
            Error::InvalidInput => "Invalid input detected".to_owned(),
            Error::OracleManipulation => "Oracle manipulation detected".to_owned(),
            Error::AccessControl => "Access control violation".to_owned(),
            Error::DoS => "Denial of service condition".to_owned(),
            Error::IllicitFee => "Illicit fee detected".to_owned(),
            Error::FlashLoan => "Flash loan attack detected".to_owned(),
            Error::LogicError => "Logic error detected".to_owned(),
            Error::RandomManipulation => "Random manipulation detected".to_owned(),
            Error::SignatureVerification => "Signature verification bypass detected".to_owned(),
            Error::AccountConfusion => "Account confusion detected".to_owned(),
            Error::FrontRunning => "Front-running detected".to_owned(),
            Error::InadequateEvents => "Inadequate event emission detected".to_owned(),
            Error::StorageManagement => "Storage management issue detected".to_owned(),
            Error::Generic(detail) => {
                let mut text = "Generic error: ".to_owned();
                text.append(detail.as_str());
                text
            },
        }
    }
}

} // verus!
