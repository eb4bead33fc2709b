use age_of_dragons_core::error::ValidationError;
use age_of_dragons_core::generation::RandomNumberGenerator;
use age_of_dragons_core::probability::Probability;
use std::collections::HashMap;

#[test]
fn test_check_with_default() {
    let rng = RandomNumberGenerator::Mock { values: HashMap::new(), default: 10 };

    assert!(!Probability::new(9, 100).unwrap().check(&rng, 0));
    assert!(!Probability::new(10, 100).unwrap().check(&rng, 0));
    assert!(Probability::new(11, 100).unwrap().check(&rng, 0));
}

#[test]
fn test_new_validates_threshold_and_max() {
    assert_eq!(Probability::new(0, 1).unwrap_err(), ValidationError::ZeroThreshold);
    assert_eq!(Probability::new(2, 1).unwrap_err(), ValidationError::MaxBelowThreshold);
    assert!(Probability::new(2, 2).is_ok());
    assert!(Probability::new(3, 4).is_ok());
    assert!(Probability::new(3, 5).is_ok());
}

#[test]
fn test_check_with_values() {
    let rng = RandomNumberGenerator::Mock {
        values: HashMap::from([(0, 0), (1, 1), (2, 2), (3, 3), (4, 4)]),
        default: 0,
    };
    let probability = Probability::new(2, 4).unwrap();

    assert!(probability.check(&rng, 0)); // 0 < 2
    assert!(probability.check(&rng, 1)); // 1 < 2
    assert!(!probability.check(&rng, 2)); // 2 >= 2
    assert!(!probability.check(&rng, 3)); // 3 >= 2
    assert!(probability.check(&rng, 4)); // 4 % 4 = 0 < 2
}

#[test]
fn test_check_is_reproducible() {
    let probability = Probability::new(3, 17).unwrap();

    for index in 0..20 {
        let rng = RandomNumberGenerator::new_hash(42, 1);
        let again = RandomNumberGenerator::new_hash(42, 1);
        assert_eq!(probability.check(&rng, index), probability.check(&again, index));
    }
}
