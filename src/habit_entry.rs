use vstd::prelude::*;

verus! {

/// One recorded occurrence of a habit: when, and how much.
#[derive(Debug, Clone, PartialEq, Eq)]
pub struct HabitEntry {
    pub id: u32,
    pub user_id: u32,
    pub habit_id: u32,
    pub entry_time: String,
    pub note: Option<String>,
    pub value: i32,
}

/// A row of the habit entry table.
#[derive(Debug, Clone, PartialEq, Eq)]
pub struct HabitEntryRow {
    pub id: i32,
    pub user_id: i32,
    pub habit_id: i32,
    pub entry_time: String,
    pub note: Option<String>,
    pub value: i32,
}

/// The new value of every column that an update of an entry replaces.
#[derive(Debug, Clone, PartialEq, Eq)]
pub struct UpdateHabitEntry {
    pub user_id: i32,
    pub habit_id: i32,
    pub note: Option<String>,
    pub value: i32,
}

impl HabitEntry {
    pub fn new(
        id: u32,
        user_id: u32,
        habit_id: u32,
        entry_time: String,
        note: Option<String>,
        value: i32,
    ) -> (r: HabitEntry)
        ensures
            r == (HabitEntry { id, user_id, habit_id, entry_time, note, value }),
    {
        HabitEntry { id, user_id, habit_id, entry_time, note, value }
    }

    /// The row that stores the entry.
    pub fn to_row(&self) -> (r: HabitEntryRow)
        ensures
            r == (HabitEntryRow {
                id: self.id as i32,
                user_id: self.user_id as i32,
                habit_id: self.habit_id as i32,
                entry_time: self.entry_time,
                note: self.note,
                value: self.value,
            }),
    {
        HabitEntryRow {
            id: self.id as i32,
            user_id: self.user_id as i32,
            habit_id: self.habit_id as i32,
            entry_time: self.entry_time.clone(),
            note: self.note.clone(),
            value: self.value,
        }
    }

    /// The entry that a row stores.
    pub fn from_row(row: HabitEntryRow) -> (r: HabitEntry)
        ensures
            r == (HabitEntry {
                id: row.id as u32,
                user_id: row.user_id as u32,
                habit_id: row.habit_id as u32,
                entry_time: row.entry_time,
                note: row.note,
                value: row.value,
            }),
    {
        HabitEntry {
            id: row.id as u32,
            user_id: row.user_id as u32,
            habit_id: row.habit_id as u32,
            entry_time: row.entry_time,
            note: row.note,
            value: row.value,
        }
    }

    /// Replaces the owner, the habit, the note and the value; the identity and the time of
    /// the entry stay.
    pub fn apply_update(&mut self, patch: &UpdateHabitEntry)
        ensures
            *final(self) == (HabitEntry {
                id: old(self).id,
                user_id: patch.user_id as u32,
                habit_id: patch.habit_id as u32,
                entry_time: old(self).entry_time,
                note: patch.note,
                value: patch.value,
            }),
    {
        self.user_id = patch.user_id as u32;
        self.habit_id = patch.habit_id as u32;
        self.note = patch.note.clone();
        self.value = patch.value;
    }
}

} // verus!
