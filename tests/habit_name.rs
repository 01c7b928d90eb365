use declutter::{Compare, DurationKind, HabitName, UnitSystem};

#[test]
fn test_habit_name_default() {
    let default_habit = HabitName::default();
    assert_eq!(HabitName::Custom, default_habit);
}

#[test]
fn test_habit_names_count() {
    assert_eq!(29, HabitName::iter().len());
}

#[test]
fn test_default_habit_name() {
    let default_habit = HabitName::default();
    assert_eq!(HabitName::Custom, default_habit);
}

#[test]
fn deserialize_habit_name() {
    assert_eq!(HabitName::from_str("exercise"), Ok(HabitName::Exercise));
    assert_eq!(HabitName::from_str("journaling"), Ok(HabitName::Journaling));
    assert_eq!(
        HabitName::from_str("no_fast_food"),
        Ok(HabitName::NoFastFood)
    );
    assert_eq!(HabitName::from_str("custom"), Ok(HabitName::Custom));
    assert!(HabitName::from_str("invalid").is_err());
}

#[test]
fn serialize_habit_name() {
    assert_eq!(HabitName::Exercise.as_str(), "exercise");
    assert_eq!(HabitName::Journaling.as_str(), "journaling");
    assert_eq!(HabitName::NoFastFood.as_str(), "no_fast_food");
    assert_eq!(HabitName::Custom.as_str(), "custom");
}

#[test]
fn test_habit_info() {
    let habit = HabitName::Exercise;
    let habit_info = habit.info();

    assert_eq!(habit_info.name, "Exercise");
    assert_eq!(
        habit_info.description,
        "Perform any physical activity that gets your heart rate up."
    );
    assert_eq!(habit_info.is_suitable_for_minors, true);
    assert_eq!(habit_info.icon, None);

    let frequency = habit_info.frequency;
    assert_eq!(frequency.duration_kind, DurationKind::Daily);
    assert_eq!(frequency.unit, UnitSystem::Minutes);
    assert_eq!(frequency.target_value, 30);
    assert_eq!(frequency.weekdays, None);

    assert_eq!(habit_info.compare, Compare::GreaterOrEqual);
}

#[test]
fn test_habit_info_journalling() {
    let habit = HabitName::Journaling;
    let habit_info = habit.info();

    assert_eq!(habit_info.name, "Journaling");
    assert_eq!(habit_info.description, "Write a journal entry or diary.");
    assert_eq!(habit_info.is_suitable_for_minors, true);
    assert_eq!(habit_info.icon, None);

    let frequency = habit_info.frequency;
    assert_eq!(frequency.duration_kind, DurationKind::Daily);
    assert_eq!(frequency.unit, UnitSystem::Count);
    assert_eq!(frequency.target_value, 1);
    assert_eq!(frequency.weekdays, None);

    assert!(frequency.is_one_time());
    assert_eq!(habit_info.compare, Compare::Equal);
}
