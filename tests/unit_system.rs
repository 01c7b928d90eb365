use declutter::UnitSystem;

#[test]
fn test_unit_system_default() {
    let unit_system = UnitSystem::default();
    assert_eq!(unit_system, UnitSystem::Unit);
}

#[test]
fn deserialize_unit_system() {
    assert_eq!(UnitSystem::from_str("count"), Ok(UnitSystem::Count));
    assert_eq!(UnitSystem::from_str("minutes"), Ok(UnitSystem::Minutes));
    assert!(UnitSystem::from_str("invalid").is_err());
}

#[test]
fn unitsystem_serialize_duration_kind() {
    assert_eq!(UnitSystem::Count.as_str(), "count");
    assert_eq!(UnitSystem::Minutes.as_str(), "minutes");
}
