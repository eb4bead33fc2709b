//! Validation failures reported by the construction entrypoints.

use vstd::prelude::*;

verus! {

/// A recoverable validation failure raised while constructing an entity.
///
/// Each variant names the rule that the rejected input broke; variants that
/// concern one life stage of a race carry the index of that stage.
#[derive(Clone, Copy, Debug, Eq, PartialEq, Structural)]
pub enum ValidationError {
    /// A name was empty or contained only whitespace.
    InvalidName,
    /// A race was given an empty list of life stages.
    NoLifeStages,
    /// A life stage other than the last one had no maximum age.
    EndlessStageNotLast { index: usize },
    /// A life stage's maximum age did not exceed the previous stage's.
    StageEndsTooEarly { index: usize },
    /// A life stage's id did not equal its position in the stage list.
    WrongStageIndex { index: usize },
    /// A character's gender did not match its race's gender policy.
    InvalidGender,
    /// A probability was given a threshold of zero.
    ZeroThreshold,
    /// A probability's maximum was smaller than its threshold.
    MaxBelowThreshold,
    /// A fixed offspring count was zero.
    ZeroOffspringCount,
    /// An offspring count range started at zero.
    ZeroOffspringMin,
    /// An offspring count range's maximum did not exceed its minimum.
    OffspringMaxTooSmall,
}

} // verus!
