use declutter::{HabitCategory, HabitCategoryMap, HabitName};
use std::collections::HashSet;

#[test]
fn habit_category_map_test_default() {
    let habit_category_map = HabitCategoryMap::default();
    assert_eq!(habit_category_map.categories_per_habit.len(), 25);
    assert_eq!(habit_category_map.habits_per_category.len(), 9);
}

#[test]
fn test_new() {
    let habit_category_map = HabitCategoryMap::new();
    assert_eq!(habit_category_map.categories_per_habit.len(), 0);
    assert_eq!(habit_category_map.habits_per_category.len(), 0);
}

#[test]
fn test_categories_per_habit() {
    let habit_category_map = HabitCategoryMap::default();
    assert_eq!(
        habit_category_map
            .categories_per_habit
            .get(&HabitName::Exercise)
            .unwrap(),
        &[HabitCategory::Body]
    );
    assert_eq!(
        habit_category_map
            .categories_per_habit
            .get(&HabitName::Meditation)
            .unwrap(),
        &[HabitCategory::Mind]
    );
}

#[test]
fn test_habits_per_category() {
    let habit_category_map = HabitCategoryMap::default();
    assert_eq!(
        habit_category_map
            .habits_per_category
            .get(&HabitCategory::Body)
            .unwrap(),
        &[HabitName::Exercise, HabitName::Walking, HabitName::Running]
    );
    assert_eq!(
        habit_category_map
            .habits_per_category
            .get(&HabitCategory::Mind)
            .unwrap(),
        &[HabitName::Meditation, HabitName::Reading]
    );
    assert_eq!(
        habit_category_map
            .habits_per_category
            .get(&HabitCategory::Health)
            .unwrap(),
        &[
            HabitName::NoSmoking,
            HabitName::NoDrinking,
            HabitName::NoSugar,
            HabitName::NoFastFood
        ]
    );
    assert_eq!(
        habit_category_map
            .habits_per_category
            .get(&HabitCategory::Other)
            .unwrap(),
        &[
            HabitName::Cooking,
            HabitName::Cleaning,
            HabitName::Gardening,
            HabitName::Swimming,
            HabitName::Yoga
        ]
    );
}

#[test]
fn test_add_habit_category() {
    let mut habit_category_map = HabitCategoryMap::default();
    habit_category_map.add(HabitName::Exercise, HabitCategory::Body);
    habit_category_map.add(HabitName::Exercise, HabitCategory::Mind);
    habit_category_map.add(HabitName::Exercise, HabitCategory::Health);
    habit_category_map.add(HabitName::Exercise, HabitCategory::Study);
    habit_category_map.add(HabitName::Exercise, HabitCategory::Productivity);
    habit_category_map.add(HabitName::Exercise, HabitCategory::Finance);
    habit_category_map.add(HabitName::Exercise, HabitCategory::Social);
    habit_category_map.add(HabitName::Exercise, HabitCategory::Abstraction);
    habit_category_map.add(HabitName::Exercise, HabitCategory::Other);

    assert!(habit_category_map
        .categories_per_habit
        .get(&HabitName::Exercise)
        .unwrap()
        .iter()
        .all(|&category| {
            vec![
                HabitCategory::Body,
                HabitCategory::Mind,
                HabitCategory::Health,
                HabitCategory::Study,
                HabitCategory::Productivity,
                HabitCategory::Finance,
                HabitCategory::Social,
                HabitCategory::Abstraction,
                HabitCategory::Other,
            ]
            .contains(&category)
        }));

    assert!(habit_category_map
        .habits_per_category
        .get(&HabitCategory::Health)
        .unwrap()
        .iter()
        .all(|&habit_name| {
            vec![
                HabitName::Exercise,
                HabitName::NoSmoking,
                HabitName::NoDrinking,
                HabitName::NoSugar,
                HabitName::NoFastFood,
            ]
            .contains(&habit_name)
        }));

    assert!(habit_category_map
        .habits_per_category
        .get(&HabitCategory::Finance)
        .unwrap()
        .iter()
        .all(|&habit_name| {
            vec![
                HabitName::Exercise,
                HabitName::Investing,
                HabitName::SavingMoney,
            ]
            .contains(&habit_name)
        }));

    assert!(habit_category_map
        .habits_per_category
        .get(&HabitCategory::Social)
        .unwrap()
        .iter()
        .all(|&habit_name| {
            vec![HabitName::Exercise, HabitName::Socializing].contains(&habit_name)
        }));
}

#[test]
fn test_insert_habit_with_categories() {
    let mut hcm = HabitCategoryMap::new();
    let habit = HabitName::Exercise;
    let categories = vec![HabitCategory::Body, HabitCategory::Productivity];
    hcm.insert_habit_with_categories(habit, categories.clone());
    assert_eq!(hcm.categories_per_habit.get(&habit).unwrap(), &categories);
    assert_eq!(
        hcm.habits_per_category.get(&HabitCategory::Body).unwrap(),
        &[habit]
    );
    assert_eq!(
        hcm.habits_per_category
            .get(&HabitCategory::Productivity)
            .unwrap(),
        &[habit]
    );
}

#[test]
fn test_insert_category_with_habits() {
    let mut hcm = HabitCategoryMap::new();
    let category = HabitCategory::Health;
    let habits = vec![
        HabitName::NoSmoking,
        HabitName::NoDrinking,
        HabitName::NoSugar,
        HabitName::NoFastFood,
    ];
    hcm.insert_category_with_habits(category, habits.clone());
    let habits_set: HashSet<_> = habits.iter().collect();
    assert_eq!(
        hcm.habits_per_category
            .get(&category)
            .unwrap()
            .iter()
            .collect::<HashSet<_>>(),
        habits_set
    );
    for habit in habits {
        assert_eq!(
            hcm.categories_per_habit.get(&habit).unwrap(),
            &vec![category]
        );
    }
}

#[test]
fn test_remove() {
    let mut habit_category_map = HabitCategoryMap::default();
    habit_category_map.remove(&HabitName::Exercise, HabitCategory::Body);
    assert_eq!(
        habit_category_map
            .categories_per_habit
            .get(&HabitName::Exercise)
            .unwrap(),
        &[]
    );
    assert_eq!(
        habit_category_map
            .habits_per_category
            .get(&HabitCategory::Body)
            .unwrap(),
        &[HabitName::Walking, HabitName::Running]
    );
}

#[test]
fn test_get_categories() {
    let habit_category_map = HabitCategoryMap::default();
    assert_eq!(
        habit_category_map
            .get_categories(&HabitName::Exercise)
            .unwrap(),
        &[HabitCategory::Body]
    );
    assert_eq!(
        habit_category_map
            .get_categories(&HabitName::NoSmoking)
            .unwrap(),
        &[HabitCategory::Health]
    );
    assert_eq!(
        habit_category_map
            .get_categories(&HabitName::Learning)
            .unwrap(),
        &[HabitCategory::Study]
    );
    assert_eq!(
        habit_category_map
            .get_categories(&HabitName::Cooking)
            .unwrap(),
        &[HabitCategory::Other]
    );
}

#[test]
fn test_get_habits() {
    let habit_category_map = HabitCategoryMap::default();
    assert_eq!(
        habit_category_map.get_habits(&HabitCategory::Body).unwrap(),
        &[HabitName::Exercise, HabitName::Walking, HabitName::Running]
    );
    assert_eq!(
        habit_category_map
            .get_habits(&HabitCategory::Study)
            .unwrap(),
        &[
            HabitName::Learning,
            HabitName::OnlineCourse,
            HabitName::LearningLanguage
        ]
    );
    assert_eq!(
        habit_category_map
            .get_habits(&HabitCategory::Productivity)
            .unwrap(),
        &[HabitName::Programming, HabitName::Writing]
    );
    assert_eq!(
        habit_category_map
            .get_habits(&HabitCategory::Abstraction)
            .unwrap(),
        &[HabitName::Drawing, HabitName::Music, HabitName::Journaling]
    );
    assert_eq!(
        habit_category_map
            .get_habits(&HabitCategory::Other)
            .unwrap(),
        &[
            HabitName::Cooking,
            HabitName::Cleaning,
            HabitName::Gardening,
            HabitName::Swimming,
            HabitName::Yoga
        ]
    );
}
