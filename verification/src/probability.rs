//! The probability of an event happening, as a threshold over a maximum.

use crate::error::ValidationError;
use crate::generation::RandomNumberGenerator;
use vstd::prelude::*;

verus! {

/// The probability of an event happening: the event happens iff a
/// deterministic roll in `[0, max)` falls below `threshold`.
#[derive(Clone, Copy, Debug, Eq, PartialEq, Structural)]
pub struct Probability {
    threshold: u32,
    max: u32,
}

/// The mathematical content of a [`Probability`].
pub ghost struct ProbabilityView {
    pub threshold: nat,
    pub max: nat,
}

impl View for Probability {
    type V = ProbabilityView;

    closed spec fn view(&self) -> ProbabilityView {
        ProbabilityView { threshold: self.threshold as nat, max: self.max as nat }
    }
}

impl Probability {
    /// Every probability satisfies `0 < threshold <= max`.
    #[verifier::type_invariant]
    spec fn type_inv(self) -> bool {
        0 < self@.threshold <= self@.max
    }

    /// Creates a probability, if `0 < threshold <= max` holds; otherwise the
    /// clause that fails first names the error.
    pub fn new(threshold: u32, max: u32) -> (result: Result<Self, ValidationError>)
        ensures
            match result {
                Ok(probability) => 0 < threshold <= max && probability@.threshold == threshold
                    && probability@.max == max,
                Err(ValidationError::ZeroThreshold) => threshold == 0,
                Err(ValidationError::MaxBelowThreshold) => 0 < threshold && max < threshold,
                Err(_) => false,
            },
    {
        if threshold == 0 {
            Err(ValidationError::ZeroThreshold)
        } else if max < threshold {
            Err(ValidationError::MaxBelowThreshold)
        } else {
            Ok(Probability { threshold, max })
        }
    }

    /// Check if the event is happening: true iff the generator's roll for
    /// `index` against this probability's maximum falls below the threshold.
    pub fn check(&self, rng: &RandomNumberGenerator, index: usize) -> (happens: bool)
        ensures
            happens == (rng.spec_generate(index, self@.max) < self@.threshold),
    {
        proof {
            use_type_invariant(self);
        }
        rng.generate(index, self.max) < self.threshold
    }
}

/// A probability check is reproducible: any two outcomes of checking the same
/// probability against the same generator state and the same index are equal,
/// because each outcome equals the one boolean that the generator's draw
/// determines.
pub proof fn lemma_check_deterministic(
    probability: Probability,
    rng: RandomNumberGenerator,
    index: usize,
    first: bool,
    second: bool,
)
    requires
        first == (rng.spec_generate(index, probability@.max) < probability@.threshold),
        second == (rng.spec_generate(index, probability@.max) < probability@.threshold),
    ensures
        first == second,
{
}

} // verus!
