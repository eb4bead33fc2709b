use age_of_dragons_core::error::ValidationError;
use age_of_dragons_core::gender::Gender::{Female, Genderless, Male};
use age_of_dragons_core::gender::GenderOption::{NoGender, TwoGenders};
use age_of_dragons_core::stage::{LifeStage, LifeStageId};
use age_of_dragons_core::time::Duration;

#[test]
fn test_life_stage_new() {
    let stage = LifeStage::new(" Child ", 2, Some(Duration::new(6)), None).unwrap();

    assert_eq!(stage.name().name(), "Child");
    assert_eq!(stage.id(), LifeStageId::new(2));
    assert_eq!(stage.max_age(), &Some(Duration::new(6)));
    assert_eq!(stage.reproduction(), &None);
}

#[test]
fn test_life_stage_with_invalid_name() {
    assert_eq!(
        LifeStage::new("", 0, None, None).unwrap_err(),
        ValidationError::InvalidName,
    );
    assert_eq!(
        LifeStage::new(" \t ", 0, None, None).unwrap_err(),
        ValidationError::InvalidName,
    );
}

#[test]
fn test_simple_life_stage_is_endless() {
    let stage = LifeStage::simple();

    assert_eq!(stage.name().name(), "Life Stage");
    assert_eq!(stage.id(), LifeStageId::new(0));
    assert_eq!(stage.max_age(), &None);
    assert_eq!(stage.reproduction(), &None);
}

#[test]
fn test_gender_option_is_valid() {
    assert!(!NoGender.is_valid(Female));
    assert!(!NoGender.is_valid(Male));
    assert!(NoGender.is_valid(Genderless));

    assert!(TwoGenders.is_valid(Female));
    assert!(TwoGenders.is_valid(Male));
    assert!(!TwoGenders.is_valid(Genderless));
}
