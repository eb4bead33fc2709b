use age_of_dragons_core::error::ValidationError;
use age_of_dragons_core::gender::GenderOption::TwoGenders;
use age_of_dragons_core::race::Race;
use age_of_dragons_core::stage::LifeStage;
use age_of_dragons_core::time::Duration;

#[test]
fn test_new() {
    let stage0 = LifeStage::new("LF0", 0, Some(Duration::new(44)), None).unwrap();
    let stage1 = LifeStage::new("LF1", 1, None, None).unwrap();

    assert!(Race::new(0, "Test", TwoGenders, vec![stage0, stage1]).is_ok());
}

#[test]
fn test_new_with_invalid_name() {
    let stage = LifeStage::new("LF", 1, None, None).unwrap();

    assert!(Race::new(0, "", TwoGenders, vec![stage]).is_err());
}

#[test]
fn test_new_without_stages() {
    assert_eq!(
        Race::new(0, "Test", TwoGenders, vec![]).unwrap_err(),
        ValidationError::NoLifeStages,
    );
}

#[test]
fn test_new_with_early_stage_is_endless() {
    let stage0 = LifeStage::new("LF0", 0, None, None).unwrap();
    let stage1 = LifeStage::new("LF1", 1, None, None).unwrap();

    assert_eq!(
        Race::new(0, "Test", TwoGenders, vec![stage0, stage1]).unwrap_err(),
        ValidationError::EndlessStageNotLast { index: 0 },
    );
}

#[test]
fn test_new_with_early_stage_ends_after_later_stage() {
    let stage0 = LifeStage::new("LF0", 0, Some(Duration::new(20)), None).unwrap();
    let stage1 = LifeStage::new("LF1", 1, Some(Duration::new(10)), None).unwrap();

    assert_eq!(
        Race::new(0, "Test", TwoGenders, vec![stage0, stage1]).unwrap_err(),
        ValidationError::StageEndsTooEarly { index: 1 },
    );
}

#[test]
fn test_new_with_wrong_index() {
    let stage0 = LifeStage::new("LF0", 1, Some(Duration::new(44)), None).unwrap();
    let stage1 = LifeStage::new("LF1", 0, None, None).unwrap();

    assert_eq!(
        Race::new(0, "Test", TwoGenders, vec![stage0, stage1]).unwrap_err(),
        ValidationError::WrongStageIndex { index: 0 },
    );
}

#[test]
fn test_new_trims_name() {
    let stage = LifeStage::new("LF", 0, None, None).unwrap();
    let race = Race::new(5, " Test ", TwoGenders, vec![stage]).unwrap();

    assert_eq!(race.name().name(), "Test");
    assert_eq!(race.id().id(), 5);
    assert_eq!(race.gender_option(), TwoGenders);
    assert_eq!(race.stages().len(), 1);
}

#[test]
fn test_simple_race_is_named_after_its_id() {
    let race = Race::simple(32, TwoGenders);

    assert_eq!(race.name().name(), "Race 32");
    assert_eq!(race.id().id(), 32);
    assert_eq!(race.stages().len(), 1);
    assert_eq!(race.stages()[0].max_age(), &None);

    assert_eq!(Race::simple(0, TwoGenders).name().name(), "Race 0");
    assert_eq!(Race::simple(105, TwoGenders).name().name(), "Race 105");
}

#[test]
fn test_calculate_life_stage() {
    let stage0 = LifeStage::new("LS0", 0, Some(Duration::new(1)), None).unwrap();
    let stage1 = LifeStage::new("LS1", 1, Some(Duration::new(3)), None).unwrap();
    let race = Race::new(32, "R0", TwoGenders, vec![stage0.clone(), stage1.clone()]).unwrap();

    assert_eq!(race.calculate_life_stage(&Duration::new(0)), Some(&stage0));
    assert_eq!(race.calculate_life_stage(&Duration::new(1)), Some(&stage0));
    assert_eq!(race.calculate_life_stage(&Duration::new(2)), Some(&stage1));
    assert_eq!(race.calculate_life_stage(&Duration::new(3)), Some(&stage1));
    assert_eq!(race.calculate_life_stage(&Duration::new(4)), None);
}
