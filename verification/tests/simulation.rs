use age_of_dragons_core::gender::Gender::{Female, Male};
use age_of_dragons_core::gender::GenderOption::TwoGenders;
use age_of_dragons_core::probability::Probability;
use age_of_dragons_core::race::Race;
use age_of_dragons_core::relation::CharacterRelationType::Mate;
use age_of_dragons_core::reproduction::{OffspringCount, ReproductionOption};
use age_of_dragons_core::simulation::simulate_year;
use age_of_dragons_core::stage::{LifeStage, LifeStageId};
use age_of_dragons_core::world::SimulationData;
use age_of_dragons_core::time::Duration;

#[test]
fn test_simulate_year_runs_mating_before_aging_and_advances_the_clock() {
    let mut data = SimulationData::default();
    let race_id = data
        .race_manager
        .create(|id| {
            let reproduction = ReproductionOption::new(
                Probability::new(1, 5).unwrap(),
                OffspringCount::new_fixed_count(1).unwrap(),
            );
            let stage0 = LifeStage::new("Child", 0, Some(Duration::new(0)), None).unwrap();
            let stage1 =
                LifeStage::new("Adult", 1, Some(Duration::new(3)), Some(reproduction)).unwrap();
            Race::new(id.id(), "Mortal Race", TwoGenders, vec![stage0, stage1])
        })
        .unwrap();
    let id0 = data.create_character("C0", race_id, Female).unwrap();
    let id1 = data.create_character("C1", race_id, Male).unwrap();

    // Year 0: both characters are newborn children; nothing pairs, then both
    // outgrow the child stage that ends at age 0... only after year 0 passes.
    simulate_year(&mut data);
    assert_eq!(data.date.year(), 1);
    assert!(data.relation_manager.get_relations_between(id0, id1).is_empty());

    // Year 1: aging of year 1 moves both into the reproduction-capable adult
    // stage, but mating ran first, against the child stage.
    simulate_year(&mut data);
    assert_eq!(data.date.year(), 2);
    assert!(data.relation_manager.get_relations_between(id0, id1).is_empty());
    let character = data.character_manager.get(id0).unwrap();
    assert_eq!(character.life_stage(), LifeStageId::new(1));

    // Year 2: both are adults now, so the mating pass pairs them.
    simulate_year(&mut data);
    assert_eq!(data.date.year(), 3);
    assert_eq!(data.relation_manager.get_relations_between(id0, id1), vec![Mate]);

    // Year 3 onward: the pair is not paired again; relations stay as they are.
    simulate_year(&mut data);
    assert_eq!(data.relation_manager.get_relations_between(id0, id1), vec![Mate]);
    assert_eq!(data.relation_manager.get_relations_of(id0).len(), 1);
}
