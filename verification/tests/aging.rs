use age_of_dragons_core::aging::simulate_aging;
use age_of_dragons_core::character::CharacterId;
use age_of_dragons_core::error::ValidationError;
use age_of_dragons_core::gender::Gender::{Female, Genderless};
use age_of_dragons_core::gender::GenderOption::{NoGender, TwoGenders};
use age_of_dragons_core::probability::Probability;
use age_of_dragons_core::race::{Race, RaceId, RaceMgr};
use age_of_dragons_core::reproduction::{OffspringCount, ReproductionOption};
use age_of_dragons_core::stage::{LifeStage, LifeStageId};
use age_of_dragons_core::time::Duration;
use age_of_dragons_core::world::SimulationData;

pub fn create_mortal_race(manager: &mut RaceMgr, age0: u32, age1: u32) -> RaceId {
    let probability = Probability::new(1, 5).unwrap();
    let count = OffspringCount::new_fixed_count(1).unwrap();
    let reproduction = ReproductionOption::new(probability, count);
    let stage0 = LifeStage::new("Child", 0, Some(Duration::new(age0)), None).unwrap();
    let stage1 =
        LifeStage::new("Adult", 1, Some(Duration::new(age1)), Some(reproduction)).unwrap();
    let stages = vec![stage0, stage1];

    manager.create(|id| Race::new(id.id(), "Mortal Race", TwoGenders, stages)).unwrap()
}

pub fn create_immortal_race(id: RaceId) -> Result<Race, ValidationError> {
    let stage = LifeStage::new("Immortal", 0, None, None).unwrap();
    let stages = vec![stage];
    Race::new(id.id(), "Immortal Race", NoGender, stages)
}

fn assert_aging(data: &SimulationData, id: CharacterId, age: u32, is_alive: bool, life_stage: usize) {
    let character = data.character_manager.get(id).unwrap();
    assert_eq!(character.calculate_age(data.date), Duration::new(age));
    assert_eq!(character.is_alive(), is_alive);
    assert_eq!(character.life_stage(), LifeStageId::new(life_stage));
}

#[test]
fn test_mortal_race() {
    let mut data = SimulationData::default();
    let race_id = create_mortal_race(&mut data.race_manager, 1, 3);
    let id = data.create_character("C0", race_id, Female).unwrap();

    simulate_aging(&mut data);

    // 1.life stage

    assert_aging(&data, id, 0, true, 0);

    data.date.increase_year();
    simulate_aging(&mut data);

    assert_aging(&data, id, 1, true, 0);

    // 2.life stage

    data.date.increase_year();
    simulate_aging(&mut data);

    assert_aging(&data, id, 2, true, 1);

    data.date.increase_year();
    simulate_aging(&mut data);

    assert_aging(&data, id, 3, true, 1);

    // character died

    data.date.increase_year();
    simulate_aging(&mut data);

    assert_aging(&data, id, 4, false, 1);

    // dead characters don't age

    data.date.increase_year();
    simulate_aging(&mut data);

    assert_aging(&data, id, 4, false, 1);
}

#[test]
fn test_immortal_race_never_dies() {
    let mut data = SimulationData::default();
    let race_id = data.race_manager.create(create_immortal_race).unwrap();
    let id = data.create_character("C0", race_id, Genderless).unwrap();

    for i in 0..100 {
        simulate_aging(&mut data);

        assert_aging(&data, id, i, true, 0);

        data.date.increase_year();
    }
}
