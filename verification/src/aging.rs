//! The aging engine: characters grow up and die of old age.

use crate::character::{spec_age, Character, CharacterId, CharacterView};
use crate::stage::{LifeStageId, LifeStageView};
use crate::world::SimulationData;
use vstd::prelude::*;

verus! {

/// The character after one aging tick at date `now`, against the life stages
/// of its race. A dead character never changes. An alive character whose
/// current stage has a maximum age that its age exceeds either advances to
/// the next stage, or dies at `now` if its current stage is the last one.
/// All other characters stay as they are; at most one transition is applied
/// per tick.
pub open spec fn spec_aged(
    character: CharacterView,
    stages: Seq<LifeStageView>,
    now: nat,
) -> CharacterView {
    if character.death_date is Some {
        character
    } else {
        match stages[character.life_stage as int].max_age {
            Some(max_age) => if spec_age(character, now) > max_age {
                if character.life_stage + 1 == stages.len() {
                    CharacterView { death_date: Some(now), ..character }
                } else {
                    CharacterView { life_stage: (character.life_stage + 1) as nat, ..character }
                }
            } else {
                character
            },
            None => character,
        }
    }
}

/// A dead character is skipped by aging entirely: no tick ever changes it
/// again.
pub proof fn lemma_dead_character_never_changes(
    character: CharacterView,
    stages: Seq<LifeStageView>,
    now: nat,
)
    requires
        character.death_date is Some,
    ensures
        spec_aged(character, stages, now) == character,
{
}

/// A character whose current life stage has no maximum age never transitions:
/// it stays in its stage and stays alive, whatever its age.
pub proof fn lemma_endless_stage_never_transitions(
    character: CharacterView,
    stages: Seq<LifeStageView>,
    now: nat,
)
    requires
        stages[character.life_stage as int].max_age is None,
    ensures
        spec_aged(character, stages, now) == character,
{
}

/// Aging changes at most the life stage or the death date, and applies at
/// most one transition per tick: every other field stays as it was, and a
/// character never both advances and dies in one tick.
pub proof fn lemma_aged_changes_one_step(
    character: CharacterView,
    stages: Seq<LifeStageView>,
    now: nat,
)
    ensures
        ({
            let aged = spec_aged(character, stages, now);
            &&& aged.id == character.id
            &&& aged.name == character.name
            &&& aged.race_id == character.race_id
            &&& aged.gender == character.gender
            &&& aged.birth_date == character.birth_date
            &&& aged.life_stage == character.life_stage || aged.life_stage == character.life_stage
                + 1
            &&& aged.life_stage != character.life_stage ==> aged.death_date
                == character.death_date
            &&& aged.death_date == character.death_date || (character.death_date is None
                && aged.death_date == Some(now) && aged.life_stage == character.life_stage)
        }),
{
}

/// How one character is affected by aging this tick.
enum AgingEffect {
    /// The character is old enough for the next life stage.
    ChangeLifeStage(CharacterId, LifeStageId),
    /// The character is old enough to die from old age.
    Death(CharacterId),
}

/// Calculates if a [`Character`] is affected by aging: the returned effect,
/// applied to the character, is exactly the aging step of [`spec_aged`].
fn calculate_aging_effect(data: &SimulationData, character: &Character) -> (effect: Option<
    AgingEffect,
>)
    requires
        character@.race_id < data.race_manager@.len(),
        character@.life_stage < data.race_manager@[character@.race_id as int]@.stages.len(),
        character@.death_date is None ==> character@.birth_date <= data.date@,
    ensures
        ({
            let stages = data.race_manager@[character@.race_id as int]@.stages;
            let aged = spec_aged(character@, stages, data.date@);
            match effect {
                None => aged == character@,
                Some(AgingEffect::ChangeLifeStage(id, stage)) => id@ == character@.id && stage@
                    == character@.life_stage + 1 && character@.death_date is None && aged == (
                CharacterView { life_stage: (character@.life_stage + 1) as nat, ..character@ }),
                Some(AgingEffect::Death(id)) => id@ == character@.id && character@.death_date
                    is None && aged == (CharacterView {
                    death_date: Some(data.date@),
                    ..character@
                }),
            }
        }),
{
    if character.is_dead() {
        return None;
    }
    let race = match data.race_manager.get(character.race_id()) {
        Some(race) => race,
        None => vstd::pervasive::unreached(),
    };
    let stages = race.stages();
    let stage = &stages[character.life_stage().index()];
    if let Some(max_age) = stage.max_age() {
        let age = character.calculate_age(data.date);
        if age.year() > max_age.year() {
            let new_life_stage = character.life_stage().next();
            let is_last_stage = new_life_stage.index() == stages.len();
            if is_last_stage {
                return Some(AgingEffect::Death(character.id()));
            } else {
                return Some(AgingEffect::ChangeLifeStage(character.id(), new_life_stage));
            }
        }
    }
    None
}

/// Simulates the aging of [`Characters`](Character): per tick, each alive
/// character whose age exceeds its current stage's maximum age advances one
/// stage, or dies if that stage was the race's last. Everything else — the
/// races, the relations, the date, and every other character field — stays
/// unchanged.
pub fn simulate_aging(data: &mut SimulationData)
    requires
        old(data).wf(),
    ensures
        final(data).race_manager == old(data).race_manager,
        final(data).relation_manager == old(data).relation_manager,
        final(data).date == old(data).date,
        final(data).character_manager@.len() == old(data).character_manager@.len(),
        forall|i: int|
            0 <= i < old(data).character_manager@.len()
                ==> (#[trigger] final(data).character_manager@[i])@ == spec_aged(
                old(data).character_manager@[i]@,
                old(data).race_manager@[old(data).character_manager@[i]@.race_id as int]@.stages,
                old(data).date@,
            ),
        final(data).wf(),
{
    let ghost orig = *data;
    let mut i: usize = 0;
    let count = data.character_manager.get_all().len();
    while i < count
        invariant
            orig.wf(),
            0 <= i <= count,
            count == orig.character_manager@.len(),
            data.race_manager == orig.race_manager,
            data.relation_manager == orig.relation_manager,
            data.date == orig.date,
            data.character_manager@.len() == orig.character_manager@.len(),
            forall|j: int|
                i <= j < count ==> #[trigger] data.character_manager@[j]
                    == orig.character_manager@[j],
            forall|j: int|
                0 <= j < i ==> (#[trigger] data.character_manager@[j])@ == spec_aged(
                    orig.character_manager@[j]@,
                    orig.race_manager@[orig.character_manager@[j]@.race_id as int]@.stages,
                    orig.date@,
                ),
        decreases count - i,
    {
        let id = CharacterId::new(i);
        let effect = match data.character_manager.get(id) {
            Some(character) => calculate_aging_effect(data, character),
            None => vstd::pervasive::unreached(),
        };
        match effect {
            Some(AgingEffect::ChangeLifeStage(id, stage)) => {
                let character = match data.character_manager.get_mut(id) {
                    Some(character) => character,
                    None => vstd::pervasive::unreached(),
                };
                character.set_life_stage(stage);
            },
            Some(AgingEffect::Death(id)) => {
                let character = match data.character_manager.get_mut(id) {
                    Some(character) => character,
                    None => vstd::pervasive::unreached(),
                };
                character.set_death_date(data.date);
            },
            None => {},
        }
        i = i + 1;
    }
}

} // verus!
