use declutter::{
    Compare, DurationKind, Frequency, HabitCategory, HabitCategoryMap, HabitName, ModelError,
    TargetGoalUnit, UnitSystem, Weekday,
};

#[test]
fn duration_seconds_per_period() {
    assert_eq!(DurationKind::Daily.period_seconds(), 86400);
    assert_eq!(DurationKind::Weekly.period_seconds(), 604800);
    assert_eq!(DurationKind::Monthly.period_seconds(), 2592000);
}

#[test]
fn duration_to_and_from_seconds() {
    assert_eq!(DurationKind::Daily.to_duration(2), Some(172800));
    assert_eq!(DurationKind::Weekly.to_duration(3), Some(1814400));
    assert_eq!(DurationKind::Monthly.to_duration(0), Some(0));
    assert_eq!(DurationKind::Daily.from_duration(172800), 2);
    assert_eq!(DurationKind::Daily.from_duration(172799), 1);
    assert_eq!(DurationKind::Monthly.from_duration(2592000 * 3), 3);
}

#[test]
fn duration_round_trip_every_kind() {
    for kind in [DurationKind::Daily, DurationKind::Weekly, DurationKind::Monthly] {
        for q in [0u64, 1, 7, 30, 365, 1_000_000] {
            let seconds = kind.to_duration(q).unwrap();
            assert_eq!(kind.from_duration(seconds), q);
        }
    }
}

#[test]
fn duration_too_long_does_not_fit() {
    assert_eq!(DurationKind::Monthly.to_duration(u64::MAX), None);
    assert_eq!(DurationKind::Daily.to_duration(u64::MAX / 86400 + 1), None);
    assert!(DurationKind::Daily.to_duration(u64::MAX / 86400).is_some());
}

#[test]
fn duration_kind_weekly_name() {
    assert_eq!(DurationKind::Weekly.as_str(), "weekly");
    assert_eq!(DurationKind::from_str("weekly"), Ok(DurationKind::Weekly));
}

#[test]
fn reparse_canonical_names() {
    let c = Compare::from_str("not_equal");
    assert_eq!(Compare::from_str(c.unwrap().as_str()), c);
    let u = UnitSystem::from_str("kilometers");
    assert_eq!(UnitSystem::from_str(u.unwrap().as_str()), u);
    let h = HabitName::from_str("learning_language");
    assert_eq!(HabitName::from_str(h.unwrap().as_str()), h);
    let g = HabitCategory::from_str("productivity");
    assert_eq!(HabitCategory::from_str(g.unwrap().as_str()), g);
    let w = Weekday::from_str("saturday");
    assert_eq!(Weekday::from_str(w.unwrap().as_str()), w);
    let d = DurationKind::from_str("monthly");
    assert_eq!(DurationKind::from_str(d.unwrap().as_str()), d);
    let t = TargetGoalUnit::from_str("hours_per_day");
    assert_eq!(t, Ok(TargetGoalUnit::HoursPerDay));
    assert_eq!(TargetGoalUnit::from_str(t.unwrap().as_str()), t);
}

#[test]
fn every_habit_name_reads_back() {
    for h in HabitName::iter() {
        assert_eq!(HabitName::from_str(h.as_str()), Ok(h));
    }
}

#[test]
fn unknown_names_are_validation_errors() {
    assert_eq!(Compare::from_str(""), Err(ModelError::Validation));
    assert_eq!(UnitSystem::from_str("Count"), Err(ModelError::Validation));
    assert_eq!(HabitName::from_str("no_fast_foods"), Err(ModelError::Validation));
    assert_eq!(HabitCategory::from_str("bod"), Err(ModelError::Validation));
    assert_eq!(TargetGoalUnit::from_str("weeks_per_year"), Err(ModelError::Validation));
}

#[test]
fn weekday_abbreviations_read_back() {
    for w in Weekday::range(Weekday::Monday, Weekday::Sunday) {
        assert_eq!(Weekday::from_short_str(w.as_short_str()), Some(w));
        assert_eq!(Weekday::from_short_str_uppercase(w.as_short_str_uppercase()), Some(w));
    }
    assert_eq!(Weekday::from_short_str("MON"), None);
    assert_eq!(Weekday::from_short_str_uppercase("Mon"), None);
}

#[test]
fn compare_symbols_read_back() {
    for c in [
        Compare::Greater,
        Compare::GreaterOrEqual,
        Compare::Equal,
        Compare::NotEqual,
        Compare::LessOrEqual,
        Compare::Less,
    ] {
        assert_eq!(Compare::from_symbol_str(c.to_symbol_str()), Some(c));
    }
    assert_eq!(Compare::from_symbol_str("=>"), None);
}

#[test]
fn compare_unordered_pair() {
    assert!(Compare::NotEqual.compare(f64::NAN, f64::NAN));
    assert!(!Compare::Equal.compare(f64::NAN, f64::NAN));
    assert!(!Compare::GreaterOrEqual.compare(f64::NAN, 1.0));
    assert!(!Compare::Less.compare(f64::NAN, 1.0));
    assert!(Compare::LessOrEqual.compare(2.5, 2.5));
}

#[test]
fn compare_default_is_equal() {
    assert_eq!(Compare::default(), Compare::Equal);
}

#[test]
fn non_daily_frequency_drops_weekdays() {
    let monthly = Frequency::new(
        Some(DurationKind::Monthly),
        None,
        None,
        Some(vec![Weekday::Monday]),
        None,
    );
    assert_eq!(monthly.weekdays, None);
    let weekly = Frequency::new(
        Some(DurationKind::Weekly),
        Some(UnitSystem::Pages),
        Some(40),
        Some(vec![Weekday::Friday]),
        Some(Compare::Less),
    );
    assert_eq!(weekly.weekdays, None);
    assert_eq!(weekly.unit, UnitSystem::Pages);
    assert_eq!(weekly.target_value, 40);
    assert_eq!(weekly.comparator, Compare::Less);
}

#[test]
fn daily_frequency_defaults_to_whole_week() {
    let daily = Frequency::new(Some(DurationKind::Daily), None, None, None, None);
    assert_eq!(daily.weekdays, Some(Weekday::range(Weekday::Monday, Weekday::Sunday)));
    assert_eq!(daily.weekdays.as_ref().unwrap().len(), 7);
    assert_eq!(daily.unit, UnitSystem::Count);
    assert_eq!(daily.target_value, 1);
    assert_eq!(daily.comparator, Compare::GreaterOrEqual);
}

#[test]
fn unspecified_duration_keeps_no_weekdays() {
    let f = Frequency::new(None, None, None, Some(vec![Weekday::Monday]), None);
    assert_eq!(f.duration_kind, DurationKind::Daily);
    assert_eq!(f.weekdays, None);
}

#[test]
fn daily_frequency_keeps_empty_weekdays() {
    let f = Frequency::new(Some(DurationKind::Daily), None, None, Some(vec![]), None);
    assert_eq!(f.weekdays, Some(vec![]));
}

#[test]
fn one_time_and_abstraction_exclusive() {
    let one = Frequency::new(None, None, Some(1), None, None);
    assert!(one.is_one_time() && !one.is_abstraction());
    let zero = Frequency::new(None, None, Some(0), None, None);
    assert!(zero.is_abstraction() && !zero.is_one_time());
    for t in [2u32, 3, 30, u32::MAX] {
        let f = Frequency::new(None, None, Some(t), None, None);
        assert!(!f.is_one_time() && !f.is_abstraction());
    }
}

#[test]
fn frequency_copy_keeps_fields() {
    let f = Frequency::new(
        Some(DurationKind::Daily),
        Some(UnitSystem::Steps),
        Some(10000),
        Some(vec![Weekday::Tuesday, Weekday::Thursday]),
        Some(Compare::Greater),
    );
    assert_eq!(f.copied(), f);
}

#[test]
fn default_map_key_counts() {
    let map = HabitCategoryMap::default();
    assert_eq!(map.habits_per_category.len(), 9);
    assert_eq!(map.categories_per_habit.len(), 25);
    for c in [
        HabitCategory::Body,
        HabitCategory::Mind,
        HabitCategory::Health,
        HabitCategory::Study,
        HabitCategory::Productivity,
        HabitCategory::Finance,
        HabitCategory::Social,
        HabitCategory::Abstraction,
        HabitCategory::Other,
    ] {
        assert!(map.get_habits(&c).is_some());
    }
    assert_eq!(map.get_habits(&HabitCategory::Social).unwrap(), &[HabitName::Socializing]);
    assert_eq!(map.get_categories(&HabitName::Cycling), None);
    assert_eq!(map.get_categories(&HabitName::Custom), None);
    assert_eq!(map.get_categories(&HabitName::Yoga).unwrap(), &[HabitCategory::Other]);
}

#[test]
fn default_trait_map_is_the_taxonomy() {
    let map: HabitCategoryMap = Default::default();
    assert_eq!(map.habits_per_category.len(), 9);
    assert_eq!(map.categories_per_habit.len(), 25);
}

#[test]
fn add_twice_files_once() {
    let mut map = HabitCategoryMap::new();
    map.add(HabitName::Cycling, HabitCategory::Body);
    map.add(HabitName::Cycling, HabitCategory::Body);
    assert_eq!(map.get_categories(&HabitName::Cycling).unwrap(), &[HabitCategory::Body]);
    assert_eq!(map.get_habits(&HabitCategory::Body).unwrap(), &[HabitName::Cycling]);
}

#[test]
fn add_to_default_appends_once() {
    let mut map = HabitCategoryMap::default();
    map.add(HabitName::Exercise, HabitCategory::Body);
    map.add(HabitName::Exercise, HabitCategory::Health);
    map.add(HabitName::Exercise, HabitCategory::Health);
    assert_eq!(
        map.get_categories(&HabitName::Exercise).unwrap(),
        &[HabitCategory::Body, HabitCategory::Health]
    );
    assert_eq!(
        map.get_habits(&HabitCategory::Health).unwrap(),
        &[
            HabitName::NoSmoking,
            HabitName::NoDrinking,
            HabitName::NoSugar,
            HabitName::NoFastFood,
            HabitName::Exercise
        ]
    );
}

#[test]
fn insert_twice_grows_reverse_lists() {
    let mut map = HabitCategoryMap::new();
    let categories = vec![HabitCategory::Body, HabitCategory::Mind];
    map.insert_habit_with_categories(HabitName::Yoga, categories.clone());
    map.insert_habit_with_categories(HabitName::Yoga, categories.clone());
    assert_eq!(map.get_categories(&HabitName::Yoga).unwrap(), &categories);
    assert_eq!(
        map.get_habits(&HabitCategory::Body).unwrap(),
        &[HabitName::Yoga, HabitName::Yoga]
    );
    assert_eq!(
        map.get_habits(&HabitCategory::Mind).unwrap(),
        &[HabitName::Yoga, HabitName::Yoga]
    );
}

#[test]
fn insert_replaces_forward_list_only() {
    let mut map = HabitCategoryMap::default();
    map.insert_habit_with_categories(HabitName::Exercise, vec![HabitCategory::Mind]);
    assert_eq!(map.get_categories(&HabitName::Exercise).unwrap(), &[HabitCategory::Mind]);
    assert_eq!(
        map.get_habits(&HabitCategory::Body).unwrap(),
        &[HabitName::Exercise, HabitName::Walking, HabitName::Running]
    );
    assert_eq!(
        map.get_habits(&HabitCategory::Mind).unwrap(),
        &[HabitName::Meditation, HabitName::Reading, HabitName::Exercise]
    );
}

#[test]
fn insert_category_twice_grows_forward_lists() {
    let mut map = HabitCategoryMap::new();
    map.insert_category_with_habits(HabitCategory::Finance, vec![HabitName::Investing]);
    map.insert_category_with_habits(HabitCategory::Finance, vec![HabitName::Investing]);
    assert_eq!(
        map.get_categories(&HabitName::Investing).unwrap(),
        &[HabitCategory::Finance, HabitCategory::Finance]
    );
    assert_eq!(map.get_habits(&HabitCategory::Finance).unwrap(), &[HabitName::Investing]);
}

#[test]
fn remove_missing_pairing_changes_nothing() {
    let mut map = HabitCategoryMap::default();
    map.remove(&HabitName::Exercise, HabitCategory::Finance);
    map.remove(&HabitName::Custom, HabitCategory::Other);
    assert_eq!(map.get_categories(&HabitName::Exercise).unwrap(), &[HabitCategory::Body]);
    assert_eq!(
        map.get_habits(&HabitCategory::Finance).unwrap(),
        &[HabitName::Investing, HabitName::SavingMoney]
    );
    assert_eq!(map.get_categories(&HabitName::Custom), None);
    assert_eq!(map.categories_per_habit.len(), 25);
}

#[test]
fn empty_map_lookups() {
    let map = HabitCategoryMap::new();
    assert!(map.categories_per_habit.is_empty());
    assert_eq!(map.get_categories(&HabitName::Exercise), None);
    assert_eq!(map.get_habits(&HabitCategory::Body), None);
}

#[test]
fn weekday_range_single_and_wrapping() {
    assert_eq!(Weekday::range(Weekday::Monday, Weekday::Monday), vec![Weekday::Monday]);
    assert_eq!(
        Weekday::range(Weekday::Thursday, Weekday::Monday),
        vec![
            Weekday::Thursday,
            Weekday::Friday,
            Weekday::Saturday,
            Weekday::Sunday,
            Weekday::Monday
        ]
    );
    assert_eq!(Weekday::range(Weekday::Sunday, Weekday::Saturday).len(), 7);
}

#[test]
fn weekday_cycles_by_seven() {
    assert_eq!(Weekday::Wednesday.next_n(700), Weekday::Wednesday);
    assert_eq!(Weekday::Wednesday.previous_n(3), Weekday::Sunday);
    assert_eq!(Weekday::Sunday.next_n(u32::MAX), Weekday::Sunday.next_n(u32::MAX % 7));
}

#[test]
fn weekday_from_iso_numbers() {
    assert_eq!(Weekday::from_iso_number(1), Weekday::Monday);
    assert_eq!(Weekday::from_iso_number(3), Weekday::Wednesday);
    assert_eq!(Weekday::from_iso_number(7), Weekday::Sunday);
}

#[test]
fn defaults_of_value_types() {
    assert_eq!(UnitSystem::default(), UnitSystem::Unit);
    assert_eq!(TargetGoalUnit::default(), TargetGoalUnit::Unit);
    assert_eq!(TargetGoalUnit::DaysPerWeek.as_str(), "days_per_week");
}

#[test]
fn habit_info_sleep_tracking() {
    let info = HabitName::SleepTracking.info();
    assert_eq!(info.name, "Sleep Tracking");
    assert_eq!(info.frequency.unit, UnitSystem::Hours);
    assert_eq!(info.frequency.target_value, 8);
    assert_eq!(info.compare, Compare::LessOrEqual);
    assert!(!HabitName::Investing.info().is_suitable_for_minors);
}
