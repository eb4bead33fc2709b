use age_of_dragons_core::character::CharacterId;
use age_of_dragons_core::relation::CharacterRelationMgr;
use age_of_dragons_core::relation::CharacterRelationType::Mate;

#[test]
fn test_get_relations_with_unknown_id() {
    let mut manager = CharacterRelationMgr::default();
    let id0 = CharacterId::new(0);
    let id1 = CharacterId::new(1);
    manager.check_size(0);

    assert!(manager.get_relations_between(id0, id1).is_empty());
    assert!(manager.get_relations_between(id1, id0).is_empty());

    assert!(manager.get_relations_of(id0).is_empty());
    assert!(manager.get_relations_of(id1).is_empty());
}

#[test]
fn test_add_relation_is_symmetric() {
    let mut manager = CharacterRelationMgr::default();
    let id0 = CharacterId::new(0);
    let id1 = CharacterId::new(2);
    manager.add_relation_between(id0, id1, Mate);

    assert_eq!(manager.get_relations_between(id0, id1), vec![Mate]);
    assert_eq!(manager.get_relations_between(id1, id0), vec![Mate]);
    assert!(manager.get_relations_between(id0, CharacterId::new(1)).is_empty());

    assert!(manager.has_relation(id0, Mate));
    assert!(manager.has_relation(id1, Mate));
    assert!(!manager.has_relation(CharacterId::new(1), Mate));

    let relations = manager.get_relations_of(id0);
    assert_eq!(relations.len(), 1);
    assert_eq!(relations[0].target(), id1);
    assert_eq!(relations[0].relation_type(), Mate);
}

#[test]
fn test_relations_are_never_deduplicated() {
    let mut manager = CharacterRelationMgr::default();
    let id0 = CharacterId::new(0);
    let id1 = CharacterId::new(1);
    manager.add_relation_between(id0, id1, Mate);
    manager.add_relation_between(id0, id1, Mate);

    assert_eq!(manager.get_relations_between(id0, id1), vec![Mate, Mate]);
    assert_eq!(manager.get_relations_of(id0).len(), 2);
}
