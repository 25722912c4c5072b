use crate::text::{lowercase_of, same_text, to_lowercase};
use vstd::prelude::*;

verus! {

/// The blockchain runtime that a detection rule or a scan is about.
#[derive(Debug, Clone, Copy, PartialEq, Eq, Structural)]
pub enum Platform {
    Solana,
    Near,
    CosmWasm,
    Substrate,
    All,
}

impl Platform {
    /// The platform that a lowercase name stands for. A name that is none of
    /// the four platform names stands for `All`.
    pub open spec fn named(name: Seq<char>) -> Platform {
        if name == "solana"@ {
            Platform::Solana
        } else if name == "near"@ {
            Platform::Near
        } else if name == "cosmwasm"@ {
            Platform::CosmWasm
        } else if name == "substrate"@ {
            Platform::Substrate
        } else {
            Platform::All
        }
    }

    /// A rule for platform `self` is used in a scan for `target` when the two
    /// are the same or either of them is `All`.
    pub open spec fn applies_to(self, target: Platform) -> bool {
        self == target || self == Platform::All || target == Platform::All
    }

    /// Reads a platform name that is already in lowercase.
    pub fn from_lowercase(name: &str) -> (p: Platform)
        ensures
            p == Platform::named(name@),
    {
        if same_text(name, "solana") {
            Platform::Solana
        } else if same_text(name, "near") {
            Platform::Near
        } else if same_text(name, "cosmwasm") {
            Platform::CosmWasm
        } else if same_text(name, "substrate") {
            Platform::Substrate
        } else {
            Platform::All
        }
    }

    /// Reads a platform name, whatever its case. An unknown name gives `All`.
    pub fn from_string(s: &str) -> (p: Platform)
        ensures
            p == Platform::named(lowercase_of(s@)),
    {
        let lower = to_lowercase(s);
        Platform::from_lowercase(lower.as_str())
    }

    /// Tells whether a rule for platform `self` is used in a scan for
    /// `target`.
    pub fn fires_for(&self, target: &Platform) -> (used: bool)
        ensures
            used == self.applies_to(*target),
            used <==> (*self == *target || *self == Platform::All || *target == Platform::All),
    {
        *self == *target || *self == Platform::All || *target == Platform::All
    }
}

} // verus!
