//! Decision classes of the autopilot and the confidence breakdown behind them.
use vstd::prelude::*;
use crate::text::{chars_of, string_of};

verus! {

/// What the autopilot may do with a proposal.
#[derive(Debug, Clone, Copy, PartialEq, Eq, Structural)]
pub enum DecisionClass {
    AutoMoveCertified,
    NeedsHumanReview,
    BlockedUnsafe,
    IgnoreNoise,
    KeepInPlace,
}

/// The name of a decision class.
pub open spec fn class_name(d: DecisionClass) -> Seq<char> {
    match d {
        DecisionClass::AutoMoveCertified => "AutoMoveCertified"@,
        DecisionClass::NeedsHumanReview => "NeedsHumanReview"@,
        DecisionClass::BlockedUnsafe => "BlockedUnsafe"@,
        DecisionClass::IgnoreNoise => "IgnoreNoise"@,
        DecisionClass::KeepInPlace => "KeepInPlace"@,
    }
}

impl DecisionClass {
    /// The name of the class (its `Display` and `Debug` text).
    pub fn name(&self) -> (s: String)
        ensures
            s@ == class_name(*self),
    {
        let n = match self {
            DecisionClass::AutoMoveCertified => "AutoMoveCertified",
            DecisionClass::NeedsHumanReview => "NeedsHumanReview",
            DecisionClass::BlockedUnsafe => "BlockedUnsafe",
            DecisionClass::IgnoreNoise => "IgnoreNoise",
            DecisionClass::KeepInPlace => "KeepInPlace",
        };
        string_of(&chars_of(n))
    }
}

/// The components of a proposal's compound confidence. The component scores
/// are in hundredths; the final score is in basis points (ten-thousandths).
#[derive(Debug, Clone, Copy, PartialEq, Eq, Structural)]
pub struct ConfidenceBreakdown {
    pub filename_score: u32,
    pub mime_score: u32,
    pub folder_context_score: u32,
    pub content_score: u32,
    pub project_marker_score: u32,
    pub final_score: u32,
}

} // verus!
