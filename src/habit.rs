use crate::copy::{copy_opt_list, copy_opt_texts, opt_seq};
use crate::error::ModelError;
use crate::frequency::Frequency;
use crate::habit_category::HabitCategory;
use crate::habit_name::HabitName;
use vstd::prelude::*;

verus! {

/// A tracked habit. Timestamps are ISO-8601 texts, as the data store keeps them.
#[derive(Debug, Clone, PartialEq, Eq)]
pub struct Habit {
    pub id: u32,
    pub user_id: u32,
    pub name: HabitName,
    pub description: Option<String>,
    pub categories: Option<Vec<HabitCategory>>,
    pub icon: Option<String>,
    pub frequency: Frequency,
    pub created_at: String,
    pub updated_at: Option<String>,
    pub reminder_times: Option<Vec<String>>,
    pub note: Option<String>,
    pub archived: bool,
    pub archived_date: Option<String>,
    pub archived_reason: Option<String>,
}

/// A row of the habit table. The categories, the frequency and the reminder times are held
/// encoded, each as one text.
#[derive(Debug, Clone, PartialEq, Eq)]
pub struct HabitRow {
    pub id: i32,
    pub user_id: i32,
    pub name: String,
    pub description: Option<String>,
    pub categories: Option<String>,
    pub icon: Option<String>,
    pub frequency: String,
    pub created_at: String,
    pub updated_at: Option<String>,
    pub reminder_times: Option<String>,
    pub note: Option<String>,
    pub archived: i32,
    pub archived_date: Option<String>,
    pub archived_reason: Option<String>,
}

/// The new value of every column that an update of a habit replaces, encoded as in a row.
#[derive(Debug, Clone, PartialEq, Eq)]
pub struct UpdateHabit {
    pub user_id: i32,
    pub name: String,
    pub description: Option<String>,
    pub categories: Option<String>,
    pub icon: Option<String>,
    pub frequency: String,
    pub reminder_times: Option<String>,
    pub note: Option<String>,
    pub archived: i32,
    pub archived_date: Option<String>,
    pub archived_reason: Option<String>,
}

impl Habit {
    pub fn new(
        id: u32,
        user_id: u32,
        name: HabitName,
        description: Option<String>,
        categories: Option<Vec<HabitCategory>>,
        icon: Option<String>,
        frequency: Frequency,
        created_at: String,
        updated_at: Option<String>,
        reminder_times: Option<Vec<String>>,
        note: Option<String>,
        archived: bool,
        archived_date: Option<String>,
        archived_reason: Option<String>,
    ) -> (r: Habit)
        ensures
            r == (Habit {
                id,
                user_id,
                name,
                description,
                categories,
                icon,
                frequency,
                created_at,
                updated_at,
                reminder_times,
                note,
                archived,
                archived_date,
                archived_reason,
            }),
    {
        Habit {
            id,
            user_id,
            name,
            description,
            categories,
            icon,
            frequency,
            created_at,
            updated_at,
            reminder_times,
            note,
            archived,
            archived_date,
            archived_reason,
        }
    }

    pub fn categories(&self) -> (r: Option<Vec<HabitCategory>>)
        ensures
            opt_seq(r) == opt_seq(self.categories),
    {
        copy_opt_list(&self.categories)
    }

    pub fn frequency(&self) -> (r: Frequency)
        ensures
            r.duration_kind == self.frequency.duration_kind,
            r.unit == self.frequency.unit,
            r.target_value == self.frequency.target_value,
            r.days() == self.frequency.days(),
            r.comparator == self.frequency.comparator,
    {
        self.frequency.copied()
    }

    pub fn reminder_times(&self) -> (r: Option<Vec<String>>)
        ensures
            opt_seq(r) == opt_seq(self.reminder_times),
    {
        copy_opt_texts(&self.reminder_times)
    }

    pub fn set_categories(&mut self, categories: Option<Vec<HabitCategory>>)
        ensures
            *final(self) == (Habit { categories, ..*old(self) }),
    {
        self.categories = categories;
    }

    pub fn set_frequency(&mut self, frequency: Frequency)
        ensures
            *final(self) == (Habit { frequency, ..*old(self) }),
    {
        self.frequency = frequency;
    }

    pub fn set_reminder_times(&mut self, reminder_times: Option<Vec<String>>)
        ensures
            *final(self) == (Habit { reminder_times, ..*old(self) }),
    {
        self.reminder_times = reminder_times;
    }

    /// The row that stores the habit, given its composite fields already encoded.
    pub fn to_row(
        &self,
        categories: Option<String>,
        frequency: String,
        reminder_times: Option<String>,
    ) -> (r: HabitRow)
        ensures
            r.id == self.id as i32,
            r.user_id == self.user_id as i32,
            r.name@ == self.name.text(),
            r.description == self.description,
            r.categories == categories,
            r.icon == self.icon,
            r.frequency == frequency,
            r.created_at == self.created_at,
            r.updated_at == self.updated_at,
            r.reminder_times == reminder_times,
            r.note == self.note,
            r.archived == (if self.archived {
                1i32
            } else {
                0i32
            }),
            r.archived_date == self.archived_date,
            r.archived_reason == self.archived_reason,
    {
        HabitRow {
            id: self.id as i32,
            user_id: self.user_id as i32,
            name: self.name.as_str().to_string(),
            description: self.description.clone(),
            categories,
            icon: self.icon.clone(),
            frequency,
            created_at: self.created_at.clone(),
            updated_at: self.updated_at.clone(),
            reminder_times,
            note: self.note.clone(),
            archived: if self.archived {
                1
            } else {
                0
            },
            archived_date: self.archived_date.clone(),
            archived_reason: self.archived_reason.clone(),
        }
    }

    /// The habit that a row stores, given its composite columns already decoded. A name
    /// that no habit has is a validation error.
    pub fn from_row(
        row: HabitRow,
        categories: Option<Vec<HabitCategory>>,
        frequency: Frequency,
        reminder_times: Option<Vec<String>>,
    ) -> (r: Result<Habit, ModelError>)
        ensures
            HabitName::from_text(row.name@) is None ==> r == Err::<Habit, ModelError>(
                ModelError::Validation,
            ),
            HabitName::from_text(row.name@) is Some ==> r == Ok::<Habit, ModelError>(
                Habit {
                    id: row.id as u32,
                    user_id: row.user_id as u32,
                    name: HabitName::from_text(row.name@).unwrap(),
                    description: row.description,
                    categories,
                    icon: row.icon,
                    frequency,
                    created_at: row.created_at,
                    updated_at: row.updated_at,
                    reminder_times,
                    note: row.note,
                    archived: row.archived == 1,
                    archived_date: row.archived_date,
                    archived_reason: row.archived_reason,
                },
            ),
    {
        let name = match HabitName::from_str(row.name.as_str()) {
            Ok(n) => n,
            Err(e) => {
                return Err(e);
            },
        };
        Ok(
            Habit {
                id: row.id as u32,
                user_id: row.user_id as u32,
                name,
                description: row.description,
                categories,
                icon: row.icon,
                frequency,
                created_at: row.created_at,
                updated_at: row.updated_at,
                reminder_times,
                note: row.note,
                archived: row.archived == 1,
                archived_date: row.archived_date,
                archived_reason: row.archived_reason,
            },
        )
    }

    /// Replaces every field that `patch` carries, given its composite columns already
    /// decoded, and stamps `updated_at`. The identity and the creation time stay. A name that
    /// no habit has is a validation error, and then nothing changes.
    pub fn apply_update(
        &mut self,
        patch: &UpdateHabit,
        categories: Option<Vec<HabitCategory>>,
        frequency: Frequency,
        reminder_times: Option<Vec<String>>,
        updated_at: String,
    ) -> (r: Result<(), ModelError>)
        ensures
            HabitName::from_text(patch.name@) is None ==> r == Err::<(), ModelError>(
                ModelError::Validation,
            ) && *final(self) == *old(self),
            HabitName::from_text(patch.name@) is Some ==> r == Ok::<(), ModelError>(())
                && *final(self) == (Habit {
                id: old(self).id,
                user_id: patch.user_id as u32,
                name: HabitName::from_text(patch.name@).unwrap(),
                description: patch.description,
                categories,
                icon: patch.icon,
                frequency,
                created_at: old(self).created_at,
                updated_at: Some(updated_at),
                reminder_times,
                note: patch.note,
                archived: patch.archived == 1,
                archived_date: patch.archived_date,
                archived_reason: patch.archived_reason,
            }),
    {
        let name = match HabitName::from_str(patch.name.as_str()) {
            Ok(n) => n,
            Err(e) => {
                return Err(e);
            },
        };
        self.user_id = patch.user_id as u32;
        self.name = name;
        self.description = patch.description.clone();
        self.categories = categories;
        self.icon = patch.icon.clone();
        self.frequency = frequency;
        self.updated_at = Some(updated_at);
        self.reminder_times = reminder_times;
        self.note = patch.note.clone();
        self.archived = patch.archived == 1;
        self.archived_date = patch.archived_date.clone();
        self.archived_reason = patch.archived_reason.clone();
        Ok(())
    }
}

} // verus!
