use crate::text::{lowercase_of, same_text, to_lowercase};
use vstd::prelude::*;

verus! {

/// The checklist for Solana programs.
pub const SOLANA_CHECKLIST: &'static str =
    "# Solana-Specific Security Checklist\n\nThis is a placeholder for the Solana security checklist.\nPlease refer to the full checklist in the checklists directory.";

/// The checklist for every other platform.
pub const GENERAL_CHECKLIST: &'static str =
    "# General Rust Smart Contract Security Checklist\n\nThis is a placeholder for the general security checklist.\nPlease refer to the full checklist in the checklists directory.";

/// The checklist for a lowercase platform name: the Solana checklist for
/// `solana`, the general one for every other name.
pub open spec fn checklist_text(name: Seq<char>) -> &'static str {
    if name == "solana"@ {
        SOLANA_CHECKLIST
    } else {
        GENERAL_CHECKLIST
    }
}

/// The checklist for a platform name that is already in lowercase.
pub fn checklist_for_lowercase(name: &str) -> (text: &'static str)
    ensures
        text == checklist_text(name@),
{
    if same_text(name, "solana") {
        SOLANA_CHECKLIST
    } else {
        GENERAL_CHECKLIST
    }
}

/// The checklist for a platform name, whatever its case.
pub fn checklist_content(platform: &str) -> (text: &'static str)
    ensures
        text == checklist_text(lowercase_of(platform@)),
{
    let lower = to_lowercase(platform);
    checklist_for_lowercase(lower.as_str())
}

} // verus!
