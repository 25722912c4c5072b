use vstd::prelude::*;

verus! {

/// How serious a finding is. `High` ranks above `Medium`, `Medium` above
/// `Low`, and `Low` above `Info`.
#[derive(Debug, Clone, Copy, PartialEq, Eq, Structural, Hash)]
pub enum Severity {
    High,
    Medium,
    Low,
    Info,
}

impl Severity {
    /// Position in the report order: 0 for `High` up to 3 for `Info`.
    pub open spec fn rank_of(self) -> nat {
        match self {
            Severity::High => 0,
            Severity::Medium => 1,
            Severity::Low => 2,
            Severity::Info => 3,
        }
    }

    /// The tag printed for this severity.
    pub open spec fn label_of(self) -> Seq<char> {
        match self {
            Severity::High => "HIGH"@,
            Severity::Medium => "MEDIUM"@,
            Severity::Low => "LOW"@,
            Severity::Info => "INFO"@,
        }
    }

    /// The severities in report order.
    pub open spec fn report_order() -> Seq<Severity> {
        seq![Severity::High, Severity::Medium, Severity::Low, Severity::Info]
    }

    /// Position in the report order: 0 for `High` up to 3 for `Info`.
    pub fn rank(&self) -> (r: u8)
        ensures
            r == self.rank_of(),
    {
        match self {
            Severity::High => 0,
            Severity::Medium => 1,
            Severity::Low => 2,
            Severity::Info => 3,
        }
    }

    /// Tells whether `self` is more serious than `other`.
    pub fn outranks(&self, other: &Severity) -> (more: bool)
        ensures
            more == (self.rank_of() < other.rank_of()),
    {
        self.rank() < other.rank()
    }

    /// The tag printed for this severity.
    pub fn label(&self) -> (text: &'static str)
        ensures
            text@ == self.label_of(),
    {
        match self {
            Severity::High => "HIGH",
            Severity::Medium => "MEDIUM",
            Severity::Low => "LOW",
            Severity::Info => "INFO",
        }
    }

    /// The severity at position `rank` of the report order.
    pub fn from_rank(rank: u8) -> (s: Option<Severity>)
        ensures
            rank < 4 ==> s == Some(Severity::report_order()[rank as int]),
            rank >= 4 ==> s is None,
            s matches Some(v) ==> v.rank_of() == rank,
    {
        if rank == 0 {
            Some(Severity::High)
        } else if rank == 1 {
            Some(Severity::Medium)
        } else if rank == 2 {
            Some(Severity::Low)
        } else if rank == 3 {
            Some(Severity::Info)
        } else {
            None
        }
    }

    /// Two severities with the same rank are the same severity, and the
    /// report order lists each severity at its rank.
    pub proof fn lemma_rank_is_injective(a: Severity, b: Severity)
        ensures
            a.rank_of() == b.rank_of() <==> a == b,
            a.rank_of() < 4,
            Severity::report_order()[a.rank_of() as int] == a,
    {
    }
}

} // verus!
