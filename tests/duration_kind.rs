use declutter::DurationKind;

#[test]
fn test_duration_kind_default() {
    assert_eq!(DurationKind::default(), DurationKind::Daily);
}

#[test]
fn deserialize_duration_kind() {
    assert_eq!(DurationKind::from_str("daily"), Ok(DurationKind::Daily));
    assert_eq!(DurationKind::from_str("monthly"), Ok(DurationKind::Monthly));
    assert!(DurationKind::from_str("invalid").is_err());
}

#[test]
fn duration_kind_serialize_duration_kind() {
    assert_eq!(DurationKind::Daily.as_str(), "daily");
    assert_eq!(DurationKind::Monthly.as_str(), "monthly");
}
