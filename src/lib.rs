mod copy;
mod text;

pub mod list_index;

pub mod compare;
pub mod duration_kind;
pub mod error;
pub mod frequency;
pub mod habit;
pub mod habit_entry;
pub mod habit_model;
pub mod habit_category;
pub mod habit_category_map;
pub mod habit_name;
pub mod target_goal_unit;
pub mod unit_system;
pub mod user;
pub mod weekday;

pub use compare::Compare;
pub use duration_kind::DurationKind;
pub use error::ModelError;
pub use frequency::Frequency;
pub use habit::{Habit, HabitRow, UpdateHabit};
pub use habit_entry::{HabitEntry, HabitEntryRow, UpdateHabitEntry};
pub use habit_model::{HabitModel, ItemsChanged};
pub use habit_category::HabitCategory;
pub use habit_category_map::HabitCategoryMap;
pub use habit_name::{HabitInfo, HabitName};
pub use target_goal_unit::TargetGoalUnit;
pub use unit_system::UnitSystem;
pub use user::{Date, User, UserRow};
pub use weekday::Weekday;
