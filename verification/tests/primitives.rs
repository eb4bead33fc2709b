use age_of_dragons_core::error::ValidationError;
use age_of_dragons_core::generation::RandomNumberGenerator;
use age_of_dragons_core::name::Name;
use age_of_dragons_core::reproduction::OffspringCount;
use age_of_dragons_core::time::{Date, Duration};
use std::collections::HashMap;

#[test]
fn test_name_is_trimmed() {
    assert_eq!(Name::new("Test").unwrap().name(), "Test");
    assert_eq!(Name::new(" Test ").unwrap().name(), "Test");
    assert_eq!(Name::new("\t Two Words \n").unwrap().name(), "Two Words");
}

#[test]
fn test_empty_name_is_rejected() {
    assert_eq!(Name::new("").unwrap_err(), ValidationError::InvalidName);
    assert_eq!(Name::new("   ").unwrap_err(), ValidationError::InvalidName);
    assert_eq!(Name::new(" \t\n ").unwrap_err(), ValidationError::InvalidName);
}

#[test]
fn test_duration_between_dates() {
    let date0 = Date::new(20);
    let date1 = Date::new(5);
    let duration = Duration::new(15);

    assert_eq!(date0.get_duration_since(date1), duration);
    assert_eq!(date1.get_duration_since(date0), duration);
    assert_eq!(date0.get_duration_since(date0), Duration::new(0));
}

#[test]
fn test_increase_year() {
    let mut date = Date::default();
    assert_eq!(date.year(), 0);
    date.increase_year();
    assert_eq!(date.year(), 1);
    date.increase_year();
    assert_eq!(date, Date::new(2));
}

#[test]
fn test_offspring_count_validation() {
    assert_eq!(
        OffspringCount::new_fixed_count(0).unwrap_err(),
        ValidationError::ZeroOffspringCount,
    );
    assert_eq!(OffspringCount::new_fixed_count(1).unwrap(), OffspringCount::Fixed(1));
    assert!(OffspringCount::new_fixed_count(2).is_ok());
    assert!(OffspringCount::new_fixed_count(3).is_ok());

    assert_eq!(OffspringCount::new_range(0, 1).unwrap_err(), ValidationError::ZeroOffspringMin);
    assert_eq!(
        OffspringCount::new_range(2, 1).unwrap_err(),
        ValidationError::OffspringMaxTooSmall,
    );
    assert_eq!(
        OffspringCount::new_range(2, 2).unwrap_err(),
        ValidationError::OffspringMaxTooSmall,
    );
    assert_eq!(OffspringCount::new_range(3, 4).unwrap(), OffspringCount::Range { min: 3, max: 4 });
    assert!(OffspringCount::new_range(3, 5).is_ok());
}

#[test]
fn test_hash_generator_is_deterministic() {
    let rng = RandomNumberGenerator::new_hash(7, 3);
    let again = RandomNumberGenerator::new_hash(7, 3);

    for index in 0..50 {
        let draw = rng.generate(index, 1000);
        assert_eq!(draw, again.generate(index, 1000));
        assert!(draw < 1000);
    }
}

#[test]
fn test_mock_generator_reduces_modulo_max() {
    let rng = RandomNumberGenerator::Mock { values: HashMap::from([(0, 12)]), default: 7 };

    assert_eq!(rng.generate(0, 10), 2); // 12 % 10
    assert_eq!(rng.generate(0, 100), 12);
    assert_eq!(rng.generate(5, 5), 2); // default 7 % 5
}
