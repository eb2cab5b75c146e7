//! Phases of a sync run, for progress reporting.

use vstd::prelude::*;

verus! {

/// Phase of a sync run.
#[derive(Debug, Clone, Copy, PartialEq, Eq)]
pub enum Phase {
    Fetching,
    Converting,
    Uploading,
    Complete,
}

/// The name a phase is shown by.
pub open spec fn phase_name(p: Phase) -> Seq<char> {
    match p {
        Phase::Fetching => "Fetching"@,
        Phase::Converting => "Converting"@,
        Phase::Uploading => "Uploading"@,
        Phase::Complete => "Complete"@,
    }
}

impl Phase {
    /// The name this phase is shown by.
    pub fn name(&self) -> (r: &'static str)
        ensures
            r@ == phase_name(*self),
    {
        match self {
            Phase::Fetching => "Fetching",
            Phase::Converting => "Converting",
            Phase::Uploading => "Uploading",
            Phase::Complete => "Complete",
        }
    }
}

} // verus!
