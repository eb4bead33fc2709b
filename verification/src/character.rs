//! Characters: the fully simulated entities, and their store.

use crate::error::ValidationError;
use crate::gender::{spec_gender_is_valid, Gender};
use crate::name::{spec_trim, Name};
use crate::race::{Race, RaceId};
use crate::stage::LifeStageId;
use crate::time::{spec_year_diff, Date, Duration};
use vstd::prelude::*;

verus! {

/// The id of a [`Character`]: its position in the character store.
#[derive(Clone, Copy, Debug, Eq, PartialEq, Hash, Structural)]
pub struct CharacterId(usize);

impl View for CharacterId {
    type V = nat;

    closed spec fn view(&self) -> nat {
        self.0 as nat
    }
}

impl CharacterId {
    pub fn new(id: usize) -> (character_id: Self)
        ensures
            character_id@ == id,
    {
        Self(id)
    }

    pub fn id(&self) -> (id: usize)
        ensures
            id == self@,
    {
        self.0
    }
}

/// The view of an optional date, in years.
pub open spec fn spec_opt_date(date: Option<Date>) -> Option<nat> {
    match date {
        Some(date) => Some(date@),
        None => None,
    }
}

/// A character is an entity important enough to be fully simulated.
#[derive(Clone, Debug, PartialEq)]
pub struct Character {
    id: CharacterId,
    name: Name,
    race_id: RaceId,
    life_stage: LifeStageId,
    gender: Gender,
    birth_date: Date,
    /// The death date is only available, if the character is dead.
    death_date: Option<Date>,
}

/// The mathematical content of a [`Character`].
pub ghost struct CharacterView {
    pub id: nat,
    pub name: Seq<char>,
    pub race_id: nat,
    pub life_stage: nat,
    pub gender: Gender,
    pub birth_date: nat,
    pub death_date: Option<nat>,
}

impl View for Character {
    type V = CharacterView;

    closed spec fn view(&self) -> CharacterView {
        CharacterView {
            id: self.id@,
            name: self.name@,
            race_id: self.race_id@,
            life_stage: self.life_stage@,
            gender: self.gender,
            birth_date: self.birth_date@,
            death_date: spec_opt_date(self.death_date),
        }
    }
}

/// The age that a character has reached by `now`: a dead character's age is
/// frozen at its death date, an alive character's age grows with the date.
pub open spec fn spec_age(character: CharacterView, now: nat) -> nat {
    match character.death_date {
        Some(death) => spec_year_diff(death, character.birth_date),
        None => spec_year_diff(now, character.birth_date),
    }
}

impl Character {
    /// Creates a character in the first life stage of its race, if valid: the
    /// gender must match the race's gender policy and the name must be valid.
    pub fn new(
        id: usize,
        name: &str,
        race: &Race,
        gender: Gender,
        birth_date: Date,
        death_date: Option<Date>,
    ) -> (result: Result<Self, ValidationError>)
        ensures
            match result {
                Ok(character) => spec_gender_is_valid(race@.gender_option, gender) && spec_trim(
                    name@,
                ).len() > 0 && character@.id == id && character@.name == spec_trim(name@)
                    && character@.race_id == race@.id && character@.life_stage == 0
                    && character@.gender == gender && character@.birth_date == birth_date@
                    && character@.death_date == spec_opt_date(death_date),
                Err(ValidationError::InvalidGender) => !spec_gender_is_valid(
                    race@.gender_option,
                    gender,
                ),
                Err(ValidationError::InvalidName) => spec_gender_is_valid(
                    race@.gender_option,
                    gender,
                ) && spec_trim(name@).len() == 0,
                Err(_) => false,
            },
    {
        if !race.gender_option().is_valid(gender) {
            return Err(ValidationError::InvalidGender);
        }
        let name = Name::new(name)?;
        Ok(Self {
            id: CharacterId::new(id),
            name,
            race_id: race.id(),
            life_stage: LifeStageId::new(0),
            gender,
            birth_date,
            death_date,
        })
    }

    pub fn id(&self) -> (id: CharacterId)
        ensures
            id@ == self@.id,
    {
        self.id
    }

    pub fn name(&self) -> (name: &Name)
        ensures
            name@ == self@.name,
    {
        &self.name
    }

    pub fn race_id(&self) -> (race_id: RaceId)
        ensures
            race_id@ == self@.race_id,
    {
        self.race_id
    }

    pub fn life_stage(&self) -> (life_stage: LifeStageId)
        ensures
            life_stage@ == self@.life_stage,
    {
        self.life_stage
    }

    pub fn gender(&self) -> (gender: Gender)
        ensures
            gender == self@.gender,
    {
        self.gender
    }

    pub fn birth_date(&self) -> (birth_date: Date)
        ensures
            birth_date@ == self@.birth_date,
    {
        self.birth_date
    }

    pub fn death_date(&self) -> (death_date: Option<Date>)
        ensures
            spec_opt_date(death_date) == self@.death_date,
    {
        self.death_date
    }

    pub fn is_alive(&self) -> (alive: bool)
        ensures
            alive == (self@.death_date is None),
    {
        self.death_date.is_none()
    }

    pub fn is_dead(&self) -> (dead: bool)
        ensures
            dead == (self@.death_date is Some),
    {
        self.death_date.is_some()
    }

    /// Calculates the current age of alive characters and the age they
    /// reached before dying otherwise. Correct simulation usage never asks
    /// for an alive character's age before its birth, so such a query is
    /// ruled out as an invariant violation.
    pub fn calculate_age(&self, now: Date) -> (age: Duration)
        requires
            self@.death_date is Some || self@.birth_date <= now@,
        ensures
            age@ == spec_age(self@, now@),
    {
        match self.death_date {
            Some(death_date) => death_date.get_duration_since(self.birth_date),
            None => now.get_duration_since(self.birth_date),
        }
    }

    /// Moves the character into the given life stage. Only the aging engine
    /// advances characters this way.
    pub fn set_life_stage(&mut self, life_stage: LifeStageId)
        ensures
            final(self)@ == (CharacterView { life_stage: life_stage@, ..old(self)@ }),
    {
        self.life_stage = life_stage;
    }

    /// Marks the character as dead at the given date. Only the aging engine
    /// lets characters die this way.
    pub fn set_death_date(&mut self, death_date: Date)
        ensures
            final(self)@ == (CharacterView { death_date: Some(death_date@), ..old(self)@ }),
    {
        self.death_date = Some(death_date);
    }
}

/// Stores all the [`Character`]s, in creation order. The id of a character
/// equals its position; a new character gets the next free position.
#[derive(Debug)]
pub struct CharacterMgr {
    characters: Vec<Character>,
}

impl View for CharacterMgr {
    type V = Seq<Character>;

    closed spec fn view(&self) -> Seq<Character> {
        self.characters@
    }
}

impl Default for CharacterMgr {
    /// The default store holds no characters.
    fn default() -> (manager: Self)
        ensures
            manager@ == Seq::<Character>::empty(),
    {
        CharacterMgr { characters: Vec::new() }
    }
}

impl CharacterMgr {
    /// Uses the function `f` to create a [`Character`] with the next
    /// [`CharacterId`]. On failure no id is consumed and the store is
    /// unchanged.
    pub fn create<F: FnOnce(CharacterId) -> Result<Character, ValidationError>>(
        &mut self,
        f: F,
    ) -> (result: Result<CharacterId, ValidationError>)
        requires
            forall|id: CharacterId| id@ == old(self)@.len() ==> call_requires(f, (id,)),
        ensures
            match result {
                Ok(id) => id@ == old(self)@.len() && final(self)@ == old(self)@.push(
                    final(self)@.last(),
                ) && call_ensures(
                    f,
                    (id,),
                    Ok::<Character, ValidationError>(final(self)@.last()),
                ),
                Err(error) => final(self)@ == old(self)@ && exists|id: CharacterId|
                    id@ == old(self)@.len() && #[trigger] call_ensures(
                        f,
                        (id,),
                        Err::<Character, ValidationError>(error),
                    ),
            },
    {
        let id = CharacterId::new(self.characters.len());
        match f(id) {
            Ok(character) => {
                self.characters.push(character);
                Ok(id)
            },
            Err(error) => Err(error),
        }
    }

    pub fn get_all(&self) -> (characters: &Vec<Character>)
        ensures
            characters@ == self@,
    {
        &self.characters
    }

    /// The character with this id, or nothing for an id that was never
    /// created.
    pub fn get(&self, id: CharacterId) -> (result: Option<&Character>)
        ensures
            match result {
                Some(character) => id@ < self@.len() && *character == self@[id@ as int],
                None => id@ >= self@.len(),
            },
    {
        if id.id() < self.characters.len() {
            Some(&self.characters[id.id()])
        } else {
            None
        }
    }

    /// Mutable access to the character with this id, or nothing for an id
    /// that was never created.
    pub fn get_mut(&mut self, id: CharacterId) -> (result: Option<&mut Character>)
        ensures
            id@ < old(self)@.len() ==> result is Some && *result.unwrap() == old(self)@[id@ as int]
                && final(self)@ == old(self)@.update(id@ as int, *final(result.unwrap())),
            id@ >= old(self)@.len() ==> result is None && final(self)@ == old(self)@,
    {
        if id.id() < self.characters.len() {
            Some(&mut self.characters[id.id()])
        } else {
            None
        }
    }
}

} // verus!
