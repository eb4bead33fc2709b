//! Reproduction configuration of a life stage.

use crate::error::ValidationError;
use crate::probability::{Probability, ProbabilityView};
use vstd::prelude::*;

verus! {

/// How many offspring can a [`Race`](crate::race::Race) produce at once?
#[derive(Clone, Copy, Debug, Eq, PartialEq, Structural)]
pub enum OffspringCount {
    Fixed(u32),
    Range { min: u32, max: u32 },
}

impl OffspringCount {
    /// Creates a fixed offspring count, if the count is greater than 0.
    pub fn new_fixed_count(count: u32) -> (result: Result<OffspringCount, ValidationError>)
        ensures
            match result {
                Ok(valid) => count > 0 && valid == OffspringCount::Fixed(count),
                Err(ValidationError::ZeroOffspringCount) => count == 0,
                Err(_) => false,
            },
    {
        if count == 0 {
            Err(ValidationError::ZeroOffspringCount)
        } else {
            Ok(OffspringCount::Fixed(count))
        }
    }

    /// Creates a range of offspring counts, that has equal probability. The
    /// minimum must be greater than 0 and below the maximum.
    pub fn new_range(min: u32, max: u32) -> (result: Result<OffspringCount, ValidationError>)
        ensures
            match result {
                Ok(valid) => 0 < min < max && valid == (OffspringCount::Range { min, max }),
                Err(ValidationError::ZeroOffspringMin) => min == 0,
                Err(ValidationError::OffspringMaxTooSmall) => 0 < min && max <= min,
                Err(_) => false,
            },
    {
        if min == 0 {
            Err(ValidationError::ZeroOffspringMin)
        } else if max <= min {
            Err(ValidationError::OffspringMaxTooSmall)
        } else {
            Ok(OffspringCount::Range { min, max })
        }
    }
}

/// How can a [`Race`](crate::race::Race) reproduce? Present on a life stage
/// to mark it reproduction-capable. The probability and the offspring count
/// are reserved for offspring spawning, which no current behavior performs.
#[derive(Clone, Copy, Debug, Eq, PartialEq, Structural)]
pub struct ReproductionOption {
    probability: Probability,
    offspring_count: OffspringCount,
}

/// The mathematical content of a [`ReproductionOption`].
pub ghost struct ReproductionView {
    pub probability: ProbabilityView,
    pub count: OffspringCount,
}

impl View for ReproductionOption {
    type V = ReproductionView;

    closed spec fn view(&self) -> ReproductionView {
        ReproductionView { probability: self.probability@, count: self.offspring_count }
    }
}

impl ReproductionOption {
    pub fn new(probability: Probability, offspring_count: OffspringCount) -> (option:
        ReproductionOption)
        ensures
            option@.probability == probability@,
            option@.count == offspring_count,
    {
        ReproductionOption { probability, offspring_count }
    }
}

} // verus!
