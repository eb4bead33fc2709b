//! Genders of characters and the gender policy of a race.

use vstd::prelude::*;

verus! {

/// The gender of a [`Character`](crate::character::Character).
#[derive(Clone, Copy, Debug, Eq, PartialEq, Structural)]
pub enum Gender {
    Genderless,
    Female,
    Male,
}

/// Which [`Gender`]s are available for members of a
/// [`Race`](crate::race::Race)?
#[derive(Clone, Copy, Debug, Eq, PartialEq, Structural)]
pub enum GenderOption {
    /// The race has no gender, which limits the reproduction options.
    NoGender,
    /// The race has males & females.
    TwoGenders,
}

/// Does the gender satisfy the policy? A race without gender admits only
/// genderless members; a race with two genders admits females and males.
pub open spec fn spec_gender_is_valid(option: GenderOption, gender: Gender) -> bool {
    match option {
        GenderOption::NoGender => gender == Gender::Genderless,
        GenderOption::TwoGenders => gender == Gender::Female || gender == Gender::Male,
    }
}

impl GenderOption {
    /// Is the [`Gender`] valid for this option?
    pub fn is_valid(&self, gender: Gender) -> (valid: bool)
        ensures
            valid == spec_gender_is_valid(*self, gender),
    {
        match self {
            GenderOption::NoGender => gender == Gender::Genderless,
            GenderOption::TwoGenders => gender == Gender::Female || gender == Gender::Male,
        }
    }
}

} // verus!
