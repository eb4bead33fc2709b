use age_of_dragons_core::character::Character;
use age_of_dragons_core::error::ValidationError;
use age_of_dragons_core::gender::Gender::{Female, Genderless, Male};
use age_of_dragons_core::gender::GenderOption::{NoGender, TwoGenders};
use age_of_dragons_core::race::Race;
use age_of_dragons_core::time::{Date, Duration};

#[test]
fn test_alive_character() {
    let race = Race::simple(32, TwoGenders);
    let character = Character::new(0, "C0", &race, Female, Date::new(20), None).unwrap();

    assert_eq!(character.death_date(), None);
    assert!(character.is_alive());
    assert!(!character.is_dead());
    assert_eq!(character.calculate_age(Date::new(20)), Duration::new(0));
    assert_eq!(character.calculate_age(Date::new(21)), Duration::new(1));
    assert_eq!(character.calculate_age(Date::new(22)), Duration::new(2));
}

#[test]
fn test_dead_character() {
    let race = Race::simple(32, TwoGenders);
    let date = Date::new(45);
    let character = Character::new(0, "C0", &race, Female, Date::new(20), Some(date)).unwrap();

    assert_eq!(character.death_date(), Some(date));
    assert!(!character.is_alive());
    assert!(character.is_dead());

    let age = Duration::new(25);

    for year in 0..100 {
        assert_eq!(character.calculate_age(Date::new(year)), age);
    }
}

#[test]
fn test_character_with_wrong_gender() {
    let two_gendered = Race::simple(0, TwoGenders);
    let genderless = Race::simple(1, NoGender);
    let date = Date::new(20);

    assert!(Character::new(11, "C0", &two_gendered, Female, date, None).is_ok());
    assert!(Character::new(11, "C0", &two_gendered, Male, date, None).is_ok());
    assert_eq!(
        Character::new(11, "C0", &two_gendered, Genderless, date, None).unwrap_err(),
        ValidationError::InvalidGender,
    );

    assert!(Character::new(11, "C1", &genderless, Genderless, date, None).is_ok());
    assert_eq!(
        Character::new(11, "C1", &genderless, Female, date, None).unwrap_err(),
        ValidationError::InvalidGender,
    );
    assert_eq!(
        Character::new(11, "C1", &genderless, Male, date, None).unwrap_err(),
        ValidationError::InvalidGender,
    );
}

#[test]
fn test_character_with_invalid_name() {
    let race = Race::simple(0, TwoGenders);

    assert_eq!(
        Character::new(0, "", &race, Female, Date::new(0), None).unwrap_err(),
        ValidationError::InvalidName,
    );
    assert_eq!(
        Character::new(0, "   ", &race, Female, Date::new(0), None).unwrap_err(),
        ValidationError::InvalidName,
    );
}

#[test]
fn test_character_name_is_trimmed() {
    let race = Race::simple(0, TwoGenders);
    let character = Character::new(0, " C0 ", &race, Female, Date::new(0), None).unwrap();

    assert_eq!(character.name().name(), "C0");
}

#[test]
fn test_character_starts_in_first_life_stage() {
    let race = Race::simple(3, TwoGenders);
    let character = Character::new(7, "C0", &race, Male, Date::new(4), None).unwrap();

    assert_eq!(character.id().id(), 7);
    assert_eq!(character.race_id().id(), 3);
    assert_eq!(character.life_stage().index(), 0);
    assert_eq!(character.gender(), Male);
    assert_eq!(character.birth_date(), Date::new(4));
}
