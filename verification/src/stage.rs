//! Life stages: the named phases of a race's life cycle.

use crate::error::ValidationError;
use crate::name::{spec_trim, spec_trim_back, spec_trim_front, Name};
use crate::reproduction::{ReproductionOption, ReproductionView};
use crate::time::Duration;
use vstd::prelude::*;

verus! {

/// The id of a [`LifeStage`] for a specific [`Race`](crate::race::Race): its
/// position in that race's stage list.
#[derive(Clone, Copy, Debug, Eq, PartialEq, Hash, Structural)]
pub struct LifeStageId(usize);

impl View for LifeStageId {
    type V = nat;

    closed spec fn view(&self) -> nat {
        self.0 as nat
    }
}

impl LifeStageId {
    pub fn new(id: usize) -> (stage_id: Self)
        ensures
            stage_id@ == id,
    {
        Self(id)
    }

    pub fn index(&self) -> (index: usize)
        ensures
            index == self@,
    {
        self.0
    }

    /// The id of the following life stage.
    pub fn next(&self) -> (next: Self)
        requires
            self@ < usize::MAX,
        ensures
            next@ == self@ + 1,
    {
        Self(self.0 + 1)
    }
}

/// The view of an optional maximum age, in years.
pub open spec fn spec_opt_duration(max_age: Option<Duration>) -> Option<nat> {
    match max_age {
        Some(duration) => Some(duration@),
        None => None,
    }
}

/// The view of an optional reproduction configuration.
pub open spec fn spec_opt_reproduction(reproduction: Option<ReproductionOption>) -> Option<
    ReproductionView,
> {
    match reproduction {
        Some(option) => Some(option@),
        None => None,
    }
}

/// Members of most [`Races`](crate::race::Race) go through multiple life
/// stages while growing up.
#[derive(Clone, Debug, PartialEq)]
pub struct LifeStage {
    name: Name,
    id: LifeStageId,
    /// The life stage lasts forever, if it has no max age.
    max_age: Option<Duration>,
    /// Only life stages with a reproduction option can produce offspring.
    reproduction: Option<ReproductionOption>,
}

/// The mathematical content of a [`LifeStage`].
pub ghost struct LifeStageView {
    pub name: Seq<char>,
    pub index: nat,
    pub max_age: Option<nat>,
    pub reproduction: Option<ReproductionView>,
}

impl View for LifeStage {
    type V = LifeStageView;

    closed spec fn view(&self) -> LifeStageView {
        LifeStageView {
            name: self.name@,
            index: self.id@,
            max_age: spec_opt_duration(self.max_age),
            reproduction: spec_opt_reproduction(self.reproduction),
        }
    }
}

impl LifeStage {
    /// Creates a life stage, if the name is valid.
    pub fn new(
        name: &str,
        index: usize,
        max_age: Option<Duration>,
        reproduction: Option<ReproductionOption>,
    ) -> (result: Result<Self, ValidationError>)
        ensures
            match result {
                Ok(stage) => spec_trim(name@).len() > 0 && stage@.name == spec_trim(name@)
                    && stage@.index == index && stage@.max_age == spec_opt_duration(max_age)
                    && stage@.reproduction == spec_opt_reproduction(reproduction),
                Err(ValidationError::InvalidName) => spec_trim(name@).len() == 0,
                Err(_) => false,
            },
    {
        let name = Name::new(name)?;
        Ok(Self { name, id: LifeStageId::new(index), max_age, reproduction })
    }

    /// The view of the life stage that [`LifeStage::simple`] creates: an
    /// endless first stage without reproduction.
    pub open spec fn simple_view() -> LifeStageView {
        LifeStageView { name: "Life Stage"@, index: 0, max_age: None, reproduction: None }
    }

    /// A simple way to create a single endless life stage for testing.
    pub fn simple() -> (stage: Self)
        ensures
            stage@ == Self::simple_view(),
    {
        proof {
            reveal_strlit("Life Stage");
            assert(spec_trim_front("Life Stage"@) == "Life Stage"@);
            assert(spec_trim_back("Life Stage"@) == "Life Stage"@);
        }
        match Self::new("Life Stage", 0, None, None) {
            Ok(stage) => stage,
            Err(_) => vstd::pervasive::unreached(),
        }
    }

    pub fn name(&self) -> (name: &Name)
        ensures
            name@ == self@.name,
    {
        &self.name
    }

    pub fn id(&self) -> (id: LifeStageId)
        ensures
            id@ == self@.index,
    {
        self.id
    }

    pub fn max_age(&self) -> (max_age: &Option<Duration>)
        ensures
            spec_opt_duration(*max_age) == self@.max_age,
    {
        &self.max_age
    }

    pub fn reproduction(&self) -> (reproduction: &Option<ReproductionOption>)
        ensures
            spec_opt_reproduction(*reproduction) == self@.reproduction,
    {
        &self.reproduction
    }
}

} // verus!
