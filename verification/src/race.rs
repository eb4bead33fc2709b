//! Races and their ordered life stages.

use crate::character::Character;
use crate::decimal::{lemma_decimal_digits, push_decimal, spec_decimal};
use crate::error::ValidationError;
use crate::gender::GenderOption;
use crate::name::{spec_is_space, spec_trim, spec_trim_back, spec_trim_front, Name};
use crate::stage::{LifeStage, LifeStageView};
use crate::time::Duration;
use vstd::prelude::*;

verus! {

/// The id of a [`Race`]: its position in the race store.
#[derive(Clone, Copy, Debug, Eq, PartialEq, Hash, Structural)]
pub struct RaceId(usize);

impl View for RaceId {
    type V = nat;

    closed spec fn view(&self) -> nat {
        self.0 as nat
    }
}

impl RaceId {
    pub fn new(id: usize) -> (race_id: Self)
        ensures
            race_id@ == id,
    {
        Self(id)
    }

    pub fn id(&self) -> (id: usize)
        ensures
            id == self@,
    {
        self.0
    }
}

/// The views of a list of life stages.
pub open spec fn spec_stage_views(stages: Seq<LifeStage>) -> Seq<LifeStageView> {
    stages.map_values(|stage: LifeStage| stage@)
}

/// The rule that stage `i` of a stage list breaks, if any: a maximum age not
/// above the previous stage's, a missing maximum age on a non-last stage, or
/// an id that differs from the stage's position. The rules are tried in that
/// order.
pub open spec fn spec_stage_error_at(stages: Seq<LifeStageView>, i: int) -> Option<
    ValidationError,
> {
    if stages[i].max_age is Some && i > 0 && stages[i - 1].max_age is Some
        && stages[i].max_age.unwrap() <= stages[i - 1].max_age.unwrap() {
        Some(ValidationError::StageEndsTooEarly { index: i as usize })
    } else if stages[i].max_age is None && i < stages.len() - 1 {
        Some(ValidationError::EndlessStageNotLast { index: i as usize })
    } else if stages[i].index != i {
        Some(ValidationError::WrongStageIndex { index: i as usize })
    } else {
        None
    }
}

/// The error of the first stage at position `i` or later that breaks a rule,
/// if any.
pub open spec fn spec_stage_error_scan(stages: Seq<LifeStageView>, i: int) -> Option<
    ValidationError,
>
    decreases stages.len() - i,
{
    if i < 0 || i >= stages.len() {
        None
    } else if spec_stage_error_at(stages, i) is Some {
        spec_stage_error_at(stages, i)
    } else {
        spec_stage_error_scan(stages, i + 1)
    }
}

/// The validation failure that rejects a race built from this name and these
/// stages, if any: an empty stage list, then the first rule broken by a
/// stage, then an invalid name.
pub open spec fn spec_race_error(name: Seq<char>, stages: Seq<LifeStageView>) -> Option<
    ValidationError,
> {
    if stages.len() == 0 {
        Some(ValidationError::NoLifeStages)
    } else if spec_stage_error_scan(stages, 0) is Some {
        spec_stage_error_scan(stages, 0)
    } else if spec_trim(name).len() == 0 {
        Some(ValidationError::InvalidName)
    } else {
        None
    }
}

proof fn lemma_stage_error_scan_from_zero(stages: Seq<LifeStageView>, i: int)
    requires
        0 <= i <= stages.len(),
        forall|j: int| 0 <= j < i ==> spec_stage_error_at(stages, j) is None,
    ensures
        spec_stage_error_scan(stages, 0) == spec_stage_error_scan(stages, i),
    decreases i,
{
    if i > 0 {
        lemma_stage_error_scan_from_zero(stages, i - 1);
    }
}

proof fn lemma_scan_none_means_stage_ok(stages: Seq<LifeStageView>, j: int, k: int)
    requires
        0 <= j <= k < stages.len(),
        spec_stage_error_scan(stages, j) is None,
    ensures
        spec_stage_error_at(stages, k) is None,
    decreases k - j,
{
    if k > j {
        lemma_scan_none_means_stage_ok(stages, j + 1, k);
    }
}

/// Race construction rejects a bad stage list, whatever the name: an empty
/// list, a non-last stage without a maximum age, a maximum age that does not
/// exceed the previous stage's, and a stage whose id differs from its
/// position each leave no race behind.
pub proof fn lemma_race_rejections(name: Seq<char>, stages: Seq<LifeStageView>)
    ensures
        stages.len() == 0 ==> spec_race_error(name, stages) is Some,
        (exists|i: int| 0 <= i < stages.len() - 1 && (#[trigger] stages[i]).max_age is None)
            ==> spec_race_error(name, stages) is Some,
        (exists|i: int|
            0 < i < stages.len() && (#[trigger] stages[i]).max_age is Some && stages[
                i - 1
            ].max_age is Some && stages[i].max_age.unwrap() <= stages[i - 1].max_age.unwrap())
            ==> spec_race_error(name, stages) is Some,
        (exists|i: int| 0 <= i < stages.len() && (#[trigger] stages[i]).index != i)
            ==> spec_race_error(name, stages) is Some,
{
    if spec_race_error(name, stages) is None {
        assert forall|k: int| 0 <= k < stages.len() implies spec_stage_error_at(
            stages,
            k,
        ) is None by {
            lemma_scan_none_means_stage_ok(stages, 0, k);
        }
        assert forall|i: int| 0 <= i < stages.len() - 1 implies (#[trigger] stages[i])
            .max_age is Some by {
            assert(spec_stage_error_at(stages, i) is None);
        }
        assert forall|i: int|
            0 < i < stages.len() && (#[trigger] stages[i]).max_age is Some && stages[
                i - 1
            ].max_age is Some implies stages[i - 1].max_age.unwrap()
            < stages[i].max_age.unwrap() by {
            assert(spec_stage_error_at(stages, i) is None);
        }
        assert forall|i: int| 0 <= i < stages.len() implies (#[trigger] stages[i]).index == i by {
            assert(spec_stage_error_at(stages, i) is None);
        }
    }
}

/// Does a character of this age belong to this stage: the stage is endless,
/// or the age does not exceed its maximum age.
pub open spec fn spec_age_fits_stage(stage: LifeStageView, age: nat) -> bool {
    match stage.max_age {
        Some(max_age) => age <= max_age,
        None => true,
    }
}

/// The position of the first stage at position `i` or later that fits the
/// age, if any.
pub open spec fn spec_stage_for_age_scan(stages: Seq<LifeStageView>, age: nat, i: int) -> Option<
    int,
>
    decreases stages.len() - i,
{
    if i < 0 || i >= stages.len() {
        None
    } else if spec_age_fits_stage(stages[i], age) {
        Some(i)
    } else {
        spec_stage_for_age_scan(stages, age, i + 1)
    }
}

/// The position of the first stage of the list that fits the age, if any.
pub open spec fn spec_stage_for_age(stages: Seq<LifeStageView>, age: nat) -> Option<int> {
    spec_stage_for_age_scan(stages, age, 0)
}

proof fn lemma_stage_for_age_scan_from_zero(stages: Seq<LifeStageView>, age: nat, i: int)
    requires
        0 <= i <= stages.len(),
        forall|j: int| 0 <= j < i ==> !spec_age_fits_stage(stages[j], age),
    ensures
        spec_stage_for_age(stages, age) == spec_stage_for_age_scan(stages, age, i),
    decreases i,
{
    if i > 0 {
        lemma_stage_for_age_scan_from_zero(stages, age, i - 1);
    }
}

/// The race of a [`Character`](crate::character::Character).
/// Examples are dragon, thunder bird & giant spider.
#[derive(Clone, Debug, PartialEq)]
pub struct Race {
    id: RaceId,
    name: Name,
    gender_option: GenderOption,
    stages: Vec<LifeStage>,
}

/// The mathematical content of a [`Race`].
pub ghost struct RaceView {
    pub id: nat,
    pub name: Seq<char>,
    pub gender_option: GenderOption,
    pub stages: Seq<LifeStageView>,
}

impl View for Race {
    type V = RaceView;

    closed spec fn view(&self) -> RaceView {
        RaceView {
            id: self.id@,
            name: self.name@,
            gender_option: self.gender_option,
            stages: spec_stage_views(self.stages@),
        }
    }
}

impl Race {
    /// Creates a race, if valid: the stage list must not be empty, every
    /// stage but the last must carry a maximum age, the maximum ages must
    /// strictly increase, each stage's id must equal its position, and the
    /// name must be valid.
    pub fn new(id: usize, name: &str, gender_option: GenderOption, stages: Vec<LifeStage>) -> (
        result: Result<Self, ValidationError>)
        ensures
            match result {
                Ok(race) => spec_race_error(name@, spec_stage_views(stages@)) is None && race@.id
                    == id && race@.name == spec_trim(name@) && race@.gender_option == gender_option
                    && race@.stages == spec_stage_views(stages@),
                Err(error) => spec_race_error(name@, spec_stage_views(stages@)) == Some(error),
            },
    {
        let ghost views = spec_stage_views(stages@);
        if stages.len() == 0 {
            return Err(ValidationError::NoLifeStages);
        }
        let last_index = stages.len() - 1;
        let mut i: usize = 0;
        while i < stages.len()
            invariant
                0 <= i <= stages.len(),
                views == spec_stage_views(stages@),
                views.len() == stages@.len(),
                last_index == stages@.len() - 1,
                forall|j: int| 0 <= j < i ==> spec_stage_error_at(views, j) is None,
            decreases stages.len() - i,
        {
            let stage = &stages[i];
            if let Some(current) = stage.max_age() {
                if i > 0 {
                    if let Some(previous) = stages[i - 1].max_age() {
                        if current.year() <= previous.year() {
                            proof {
                                lemma_stage_error_scan_from_zero(views, i as int);
                            }
                            return Err(ValidationError::StageEndsTooEarly { index: i });
                        }
                    }
                }
            } else if i < last_index {
                proof {
                    lemma_stage_error_scan_from_zero(views, i as int);
                }
                return Err(ValidationError::EndlessStageNotLast { index: i });
            }
            if i != stage.id().index() {
                proof {
                    lemma_stage_error_scan_from_zero(views, i as int);
                }
                return Err(ValidationError::WrongStageIndex { index: i });
            }
            i = i + 1;
        }
        proof {
            lemma_stage_error_scan_from_zero(views, views.len() as int);
        }
        let name = Name::new(name)?;
        Ok(Self { id: RaceId::new(id), name, gender_option, stages })
    }

    /// A simple way to create a race with a single endless life stage for
    /// testing. The race is named after its id.
    pub fn simple(id: usize, gender_option: GenderOption) -> (race: Self)
        ensures
            race@.id == id,
            race@.name == "Race "@ + spec_decimal(id as nat),
            race@.gender_option == gender_option,
            race@.stages.len() == 1,
            race@.stages[0] == LifeStage::simple_view(),
    {
        let mut text = "Race ".to_owned();
        push_decimal(&mut text, id);
        proof {
            reveal_strlit("Race ");
            lemma_decimal_digits(id as nat);
            assert(!spec_is_space(text@[0]));
            assert(!spec_is_space(text@.last()));
            assert(spec_trim_front(text@) == text@);
            assert(spec_trim_back(text@) == text@);
        }
        let name = match Name::new(text.as_str()) {
            Ok(name) => name,
            Err(_) => vstd::pervasive::unreached(),
        };
        let mut stages: Vec<LifeStage> = Vec::new();
        stages.push(LifeStage::simple());
        let race = Self { id: RaceId::new(id), name, gender_option, stages };
        proof {
            assert(race@.stages =~= seq![LifeStage::simple_view()]);
        }
        race
    }

    pub fn id(&self) -> (id: RaceId)
        ensures
            id@ == self@.id,
    {
        self.id
    }

    pub fn name(&self) -> (name: &Name)
        ensures
            name@ == self@.name,
    {
        &self.name
    }

    pub fn gender_option(&self) -> (gender_option: GenderOption)
        ensures
            gender_option == self@.gender_option,
    {
        self.gender_option
    }

    pub fn stages(&self) -> (stages: &[LifeStage])
        ensures
            spec_stage_views(stages@) == self@.stages,
    {
        self.stages.as_slice()
    }

    /// Calculates the [`LifeStage`] of a
    /// [`Character`](crate::character::Character) based on its age: the first
    /// stage that the age fits, or nothing once the age exceeds every stage's
    /// maximum.
    pub fn calculate_life_stage(&self, age: &Duration) -> (result: Option<&LifeStage>)
        ensures
            match result {
                Some(stage) => spec_stage_for_age(self@.stages, age@) is Some && stage@
                    == self@.stages[spec_stage_for_age(self@.stages, age@).unwrap()],
                None => spec_stage_for_age(self@.stages, age@) is None,
            },
    {
        let ghost views = self@.stages;
        let mut i: usize = 0;
        while i < self.stages.len()
            invariant
                0 <= i <= self.stages.len(),
                views == self@.stages,
                views.len() == self.stages@.len(),
                forall|j: int| 0 <= j < i ==> !spec_age_fits_stage(views[j], age@),
            decreases self.stages.len() - i,
        {
            let stage = &self.stages[i];
            let fits = match stage.max_age() {
                Some(max_age) => age.year() <= max_age.year(),
                None => true,
            };
            if fits {
                proof {
                    lemma_stage_for_age_scan_from_zero(views, age@, i as int);
                }
                return Some(stage);
            }
            i = i + 1;
        }
        proof {
            lemma_stage_for_age_scan_from_zero(views, age@, views.len() as int);
        }
        None
    }
}

/// Stores all the [`Race`]s, in creation order. The id of a race equals its
/// position; a new race gets the next free position.
#[derive(Debug)]
pub struct RaceMgr {
    races: Vec<Race>,
}

impl View for RaceMgr {
    type V = Seq<Race>;

    closed spec fn view(&self) -> Seq<Race> {
        self.races@
    }
}

impl Default for RaceMgr {
    /// The default store holds no races.
    fn default() -> (manager: Self)
        ensures
            manager@ == Seq::<Race>::empty(),
    {
        RaceMgr { races: Vec::new() }
    }
}

impl RaceMgr {
    /// Uses the function `f` to create a [`Race`] with the next [`RaceId`].
    /// On failure no id is consumed and the store is unchanged.
    pub fn create<F: FnOnce(RaceId) -> Result<Race, ValidationError>>(&mut self, f: F) -> (result:
        Result<RaceId, ValidationError>)
        requires
            forall|id: RaceId| id@ == old(self)@.len() ==> call_requires(f, (id,)),
        ensures
            match result {
                Ok(id) => id@ == old(self)@.len() && final(self)@ == old(self)@.push(
                    final(self)@.last(),
                ) && call_ensures(f, (id,), Ok::<Race, ValidationError>(final(self)@.last())),
                Err(error) => final(self)@ == old(self)@ && exists|id: RaceId|
                    id@ == old(self)@.len() && #[trigger] call_ensures(
                        f,
                        (id,),
                        Err::<Race, ValidationError>(error),
                    ),
            },
    {
        let id = RaceId::new(self.races.len());
        match f(id) {
            Ok(race) => {
                self.races.push(race);
                Ok(id)
            },
            Err(error) => Err(error),
        }
    }

    pub fn get_all(&self) -> (races: &Vec<Race>)
        ensures
            races@ == self@,
    {
        &self.races
    }

    /// The race with this id, or nothing for an id that was never created.
    pub fn get(&self, id: RaceId) -> (result: Option<&Race>)
        ensures
            match result {
                Some(race) => id@ < self@.len() && *race == self@[id@ as int],
                None => id@ >= self@.len(),
            },
    {
        if id.id() < self.races.len() {
            Some(&self.races[id.id()])
        } else {
            None
        }
    }

    /// Returns the [`LifeStage`] of the [`Character`]. The engines call this
    /// with ids from their own authoritative snapshot, so the character's
    /// race and life stage must exist in this store.
    pub fn get_life_stage(&self, character: &Character) -> (stage: &LifeStage)
        requires
            character@.race_id < self@.len(),
            character@.life_stage < self@[character@.race_id as int]@.stages.len(),
        ensures
            stage@ == self@[character@.race_id as int]@.stages[character@.life_stage as int],
    {
        let race = match self.get(character.race_id()) {
            Some(race) => race,
            None => vstd::pervasive::unreached(),
        };
        let index = character.life_stage().index();
        &race.stages[index]
    }
}

} // verus!
