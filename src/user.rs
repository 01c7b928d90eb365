use vstd::prelude::*;

verus! {

/// A calendar date.
#[derive(Debug, Clone, Copy, PartialEq, Eq, Structural)]
pub struct Date {
    pub year: i32,
    pub month: u32,
    pub day: u32,
}

impl Date {
    /// Whether this date's month and day come earlier in a year than those of `other`.
    pub open spec fn earlier_in_year(self, other: Date) -> bool {
        self.month < other.month || (self.month == other.month && self.day < other.day)
    }
}

/// The age in whole years, on `today`, of someone born on `date_of_birth`: the difference of
/// the years, less one where the birthday has not come yet this year.
pub open spec fn age_on(date_of_birth: Date, today: Date) -> int {
    today.year - date_of_birth.year - if today.earlier_in_year(date_of_birth) {
        1int
    } else {
        0int
    }
}

/// Someone who uses the application. Timestamps are ISO-8601 texts, as the data store keeps
/// them.
#[derive(Debug, Clone, PartialEq, Eq)]
pub struct User {
    pub id: u32,
    pub name: String,
    pub date_of_birth: String,
    pub created_at: String,
}

/// A row of the user table.
#[derive(Debug, Clone, PartialEq, Eq)]
pub struct UserRow {
    pub id: i32,
    pub name: String,
    pub date_of_birth: String,
    pub created_at: String,
}

impl User {
    pub fn new(id: u32, name: &str, date_of_birth: String, created_at: String) -> (r: User)
        ensures
            r.id == id,
            r.name@ == name@,
            r.date_of_birth == date_of_birth,
            r.created_at == created_at,
    {
        User { id, name: name.to_string(), date_of_birth, created_at }
    }

    /// The user that a row stores.
    pub fn from_row(row: UserRow) -> (r: User)
        ensures
            r == (User {
                id: row.id as u32,
                name: row.name,
                date_of_birth: row.date_of_birth,
                created_at: row.created_at,
            }),
    {
        User {
            id: row.id as u32,
            name: row.name,
            date_of_birth: row.date_of_birth,
            created_at: row.created_at,
        }
    }

    /// The age in whole years on `today` of someone born on `date_of_birth`.
    pub fn age(date_of_birth: &Date, today: &Date) -> (r: i32)
        requires
            i32::MIN < today.year - date_of_birth.year <= i32::MAX,
        ensures
            r == age_on(*date_of_birth, *today),
    {
        let age = today.year - date_of_birth.year;
        if today.month < date_of_birth.month {
            age - 1
        } else if today.month == date_of_birth.month && today.day < date_of_birth.day {
            age - 1
        } else {
            age
        }
    }

    /// The name and the date of birth that an update writes: those given, and the present ones
    /// where none is given.
    pub fn updated_columns(&self, name: Option<&str>, date_of_birth: Option<&str>) -> (r: (
        String,
        String,
    ))
        ensures
            r.0@ == match name {
                Some(n) => n@,
                None => self.name@,
            },
            r.1@ == match date_of_birth {
                Some(d) => d@,
                None => self.date_of_birth@,
            },
    {
        let name = match name {
            Some(n) => n.to_string(),
            None => self.name.clone(),
        };
        let date_of_birth = match date_of_birth {
            Some(d) => d.to_string(),
            None => self.date_of_birth.clone(),
        };
        (name, date_of_birth)
    }
}

} // verus!
