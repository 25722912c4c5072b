//! Catalog of vulnerability classes found in Rust smart contracts.
//!
//! Each submodule describes one class and pairs a `vulnerable` toy contract
//! with a `secure` one.

use vstd::prelude::*;

pub mod access_control;
pub mod account_confusion;
pub mod denial_of_service;
pub mod flash_loan;
pub mod front_running;
pub mod illicit_fee_collection;
pub mod inadequate_events;
pub mod logic_errors;
pub mod oracle_manipulation;
pub mod overflow;
pub mod random_manipulation;
pub mod reentrancy;
pub mod signature_verification;
pub mod storage_management;
pub mod unchecked_inputs;

verus! {

/// The call was refused for the given reason.
pub open spec fn refused<T>(res: Result<T, &'static str>, reason: &'static str) -> bool {
    res == Err::<T, &'static str>(reason)
}

/// A catalog entry: what a vulnerability class is, how to find it and how to
/// fix it.
pub trait Vulnerability {
    /// Name of the vulnerability.
    fn name(&self) -> &'static str;

    /// Description of the vulnerability.
    fn description(&self) -> &'static str;

    /// Platforms where this vulnerability is commonly found.
    fn affected_platforms(&self) -> Vec<&'static str>;

    /// Example of exploiting the vulnerability.
    fn exploit_example(&self) -> &'static str;

    /// Detection methods for auditors.
    fn detection_methods(&self) -> Vec<&'static str>;

    /// Remediation strategies.
    fn remediation(&self) -> Vec<&'static str>;
}

} // verus!
