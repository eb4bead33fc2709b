//! The state aggregate of one simulated world.

use crate::character::{Character, CharacterId, CharacterMgr, CharacterView};
use crate::error::ValidationError;
use crate::gender::{spec_gender_is_valid, Gender};
use crate::name::spec_trim;
use crate::race::{RaceId, RaceMgr};
use crate::relation::CharacterRelationMgr;
use crate::time::Date;
use vstd::prelude::*;

verus! {

/// The whole mutable state of one simulated world: the entity stores, the
/// relation store and the current date. The caller serializes access; the
/// engines assume single-writer, non-reentrant invocation.
#[derive(Debug)]
pub struct SimulationData {
    pub race_manager: RaceMgr,
    pub character_manager: CharacterMgr,
    pub relation_manager: CharacterRelationMgr,
    pub date: Date,
}

impl Default for SimulationData {
    /// The default world holds no entities and starts at year 0.
    fn default() -> (data: Self)
        ensures
            data.race_manager@.len() == 0,
            data.character_manager@.len() == 0,
            data.relation_manager@.len() == 0,
            data.date@ == 0,
            data.wf(),
    {
        SimulationData {
            race_manager: RaceMgr::default(),
            character_manager: CharacterMgr::default(),
            relation_manager: CharacterRelationMgr::default(),
            date: Date::default(),
        }
    }
}

impl SimulationData {
    /// The internal-consistency invariant that the engines rely on: every
    /// race has at least one life stage, every character sits at the position
    /// its id names, refers to an existing race, sits in a life stage that
    /// its race has, and no alive character was born after the current date.
    pub open spec fn wf(&self) -> bool {
        let characters = self.character_manager@;
        let races = self.race_manager@;
        &&& forall|r: int| 0 <= r < races.len() ==> (#[trigger] races[r])@.stages.len() > 0
        &&& forall|r: int| 0 <= r < races.len() ==> (#[trigger] races[r])@.id == r
        &&& forall|i: int| 0 <= i < characters.len() ==> (#[trigger] characters[i])@.id == i
        &&& forall|i: int|
            0 <= i < characters.len() ==> (#[trigger] characters[i])@.race_id < races.len()
        &&& forall|i: int|
            0 <= i < characters.len() ==> (#[trigger] characters[i])@.life_stage < races[
                characters[i]@.race_id as int
            ]@.stages.len()
        &&& forall|i: int|
            0 <= i < characters.len() && (#[trigger] characters[i])@.death_date is None
                ==> characters[i]@.birth_date <= self.date@
    }

    /// Creates a [`Character`](crate::character::Character) with the next
    /// [`CharacterId`] and the current date as birthdate. The race must
    /// exist: world setup only hands in ids of races it created.
    pub fn create_character(&mut self, name: &str, race_id: RaceId, gender: Gender) -> (result:
        Result<CharacterId, ValidationError>)
        requires
            old(self).wf(),
            race_id@ < old(self).race_manager@.len(),
        ensures
            final(self).race_manager == old(self).race_manager,
            final(self).relation_manager == old(self).relation_manager,
            final(self).date == old(self).date,
            final(self).wf(),
            match result {
                Ok(id) => {
                    let race = old(self).race_manager@[race_id@ as int];
                    let characters = final(self).character_manager@;
                    &&& spec_gender_is_valid(race@.gender_option, gender)
                    &&& spec_trim(name@).len() > 0
                    &&& id@ == old(self).character_manager@.len()
                    &&& characters == old(self).character_manager@.push(characters.last())
                    &&& characters.last()@ == (CharacterView {
                        id: id@,
                        name: spec_trim(name@),
                        race_id: race_id@,
                        life_stage: 0,
                        gender,
                        birth_date: old(self).date@,
                        death_date: None,
                    })
                },
                Err(ValidationError::InvalidGender) => final(self).character_manager@
                    == old(self).character_manager@ && !spec_gender_is_valid(
                    old(self).race_manager@[race_id@ as int]@.gender_option,
                    gender,
                ),
                Err(ValidationError::InvalidName) => final(self).character_manager@
                    == old(self).character_manager@ && spec_gender_is_valid(
                    old(self).race_manager@[race_id@ as int]@.gender_option,
                    gender,
                ) && spec_trim(name@).len() == 0,
                Err(_) => false,
            },
    {
        let race = match self.race_manager.get(race_id) {
            Some(race) => race,
            None => vstd::pervasive::unreached(),
        };
        let date = self.date;
        let factory = |id: CharacterId| -> (created: Result<Character, ValidationError>)
                ensures
                    (match created {
                        Ok(character) => spec_gender_is_valid(race@.gender_option, gender)
                            && spec_trim(name@).len() > 0 && character@ == (CharacterView {
                            id: id@,
                            name: spec_trim(name@),
                            race_id: race@.id,
                            life_stage: 0,
                            gender,
                            birth_date: date@,
                            death_date: None,
                        }),
                        Err(ValidationError::InvalidGender) => !spec_gender_is_valid(
                            race@.gender_option,
                            gender,
                        ),
                        Err(ValidationError::InvalidName) => spec_gender_is_valid(
                            race@.gender_option,
                            gender,
                        ) && spec_trim(name@).len() == 0,
                        Err(_) => false,
                    }),
            { Character::new(id.id(), name, race, gender, date, None) };
        self.character_manager.create(factory)
    }
}

} // verus!
