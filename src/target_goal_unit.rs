use crate::error::ModelError;
use crate::text::str_eq;
use vstd::prelude::*;

verus! {

/// A unit in which a goal can be set.
#[derive(Debug, Clone, Copy, PartialEq, Eq, Structural, Hash, PartialOrd, Ord)]
pub enum TargetGoalUnit {
    Pages,
    Words,
    Minutes,
    Hours,
    Days,
    Weeks,
    Meters,
    Kilometers,
    Miles,
    HoursPerDay,
    DaysPerWeek,
    WeeksPerMonth,
    Grams,
    Kilograms,
    Pounds,
    Ounces,
    Calories,
    Unit,
}

impl Default for TargetGoalUnit {
    fn default() -> (r: Self)
        ensures
            r == TargetGoalUnit::Unit,
    {
        TargetGoalUnit::Unit
    }
}

impl TargetGoalUnit {
    /// The canonical (snake_case) name.
    pub open spec fn text(self) -> Seq<char> {
        match self {
            TargetGoalUnit::Pages => "pages"@,
            TargetGoalUnit::Words => "words"@,
            TargetGoalUnit::Minutes => "minutes"@,
            TargetGoalUnit::Hours => "hours"@,
            TargetGoalUnit::Days => "days"@,
            TargetGoalUnit::Weeks => "weeks"@,
            TargetGoalUnit::Meters => "meters"@,
            TargetGoalUnit::Kilometers => "kilometers"@,
            TargetGoalUnit::Miles => "miles"@,
            TargetGoalUnit::HoursPerDay => "hours_per_day"@,
            TargetGoalUnit::DaysPerWeek => "days_per_week"@,
            TargetGoalUnit::WeeksPerMonth => "weeks_per_month"@,
            TargetGoalUnit::Grams => "grams"@,
            TargetGoalUnit::Kilograms => "kilograms"@,
            TargetGoalUnit::Pounds => "pounds"@,
            TargetGoalUnit::Ounces => "ounces"@,
            TargetGoalUnit::Calories => "calories"@,
            TargetGoalUnit::Unit => "unit"@,
        }
    }

    /// The value whose canonical name is `s`, if any.
    pub open spec fn from_text(s: Seq<char>) -> Option<TargetGoalUnit> {
        if s == TargetGoalUnit::Pages.text() {
            Some(TargetGoalUnit::Pages)
        } else if s == TargetGoalUnit::Words.text() {
            Some(TargetGoalUnit::Words)
        } else if s == TargetGoalUnit::Minutes.text() {
            Some(TargetGoalUnit::Minutes)
        } else if s == TargetGoalUnit::Hours.text() {
            Some(TargetGoalUnit::Hours)
        } else if s == TargetGoalUnit::Days.text() {
            Some(TargetGoalUnit::Days)
        } else if s == TargetGoalUnit::Weeks.text() {
            Some(TargetGoalUnit::Weeks)
        } else if s == TargetGoalUnit::Meters.text() {
            Some(TargetGoalUnit::Meters)
        } else if s == TargetGoalUnit::Kilometers.text() {
            Some(TargetGoalUnit::Kilometers)
        } else if s == TargetGoalUnit::Miles.text() {
            Some(TargetGoalUnit::Miles)
        } else if s == TargetGoalUnit::HoursPerDay.text() {
            Some(TargetGoalUnit::HoursPerDay)
        } else if s == TargetGoalUnit::DaysPerWeek.text() {
            Some(TargetGoalUnit::DaysPerWeek)
        } else if s == TargetGoalUnit::WeeksPerMonth.text() {
            Some(TargetGoalUnit::WeeksPerMonth)
        } else if s == TargetGoalUnit::Grams.text() {
            Some(TargetGoalUnit::Grams)
        } else if s == TargetGoalUnit::Kilograms.text() {
            Some(TargetGoalUnit::Kilograms)
        } else if s == TargetGoalUnit::Pounds.text() {
            Some(TargetGoalUnit::Pounds)
        } else if s == TargetGoalUnit::Ounces.text() {
            Some(TargetGoalUnit::Ounces)
        } else if s == TargetGoalUnit::Calories.text() {
            Some(TargetGoalUnit::Calories)
        } else if s == TargetGoalUnit::Unit.text() {
            Some(TargetGoalUnit::Unit)
        } else {
            None
        }
    }

    pub fn as_str(&self) -> (r: &'static str)
        ensures
            r@ == self.text(),
    {
        match self {
            TargetGoalUnit::Pages => "pages",
            TargetGoalUnit::Words => "words",
            TargetGoalUnit::Minutes => "minutes",
            TargetGoalUnit::Hours => "hours",
            TargetGoalUnit::Days => "days",
            TargetGoalUnit::Weeks => "weeks",
            TargetGoalUnit::Meters => "meters",
            TargetGoalUnit::Kilometers => "kilometers",
            TargetGoalUnit::Miles => "miles",
            TargetGoalUnit::HoursPerDay => "hours_per_day",
            TargetGoalUnit::DaysPerWeek => "days_per_week",
            TargetGoalUnit::WeeksPerMonth => "weeks_per_month",
            TargetGoalUnit::Grams => "grams",
            TargetGoalUnit::Kilograms => "kilograms",
            TargetGoalUnit::Pounds => "pounds",
            TargetGoalUnit::Ounces => "ounces",
            TargetGoalUnit::Calories => "calories",
            TargetGoalUnit::Unit => "unit",
        }
    }

    /// Parses a canonical name; any other text is a validation error.
    pub fn from_str(s: &str) -> (r: Result<TargetGoalUnit, ModelError>)
        ensures
            r == match TargetGoalUnit::from_text(s@) {
                Some(v) => Ok(v),
                None => Err(ModelError::Validation),
            },
    {
        if str_eq(s, "pages") {
            Ok(TargetGoalUnit::Pages)
        } else if str_eq(s, "words") {
            Ok(TargetGoalUnit::Words)
        } else if str_eq(s, "minutes") {
            Ok(TargetGoalUnit::Minutes)
        } else if str_eq(s, "hours") {
            Ok(TargetGoalUnit::Hours)
        } else if str_eq(s, "days") {
            Ok(TargetGoalUnit::Days)
        } else if str_eq(s, "weeks") {
            Ok(TargetGoalUnit::Weeks)
        } else if str_eq(s, "meters") {
            Ok(TargetGoalUnit::Meters)
        } else if str_eq(s, "kilometers") {
            Ok(TargetGoalUnit::Kilometers)
        } else if str_eq(s, "miles") {
            Ok(TargetGoalUnit::Miles)
        } else if str_eq(s, "hours_per_day") {
            Ok(TargetGoalUnit::HoursPerDay)
        } else if str_eq(s, "days_per_week") {
            Ok(TargetGoalUnit::DaysPerWeek)
        } else if str_eq(s, "weeks_per_month") {
            Ok(TargetGoalUnit::WeeksPerMonth)
        } else if str_eq(s, "grams") {
            Ok(TargetGoalUnit::Grams)
        } else if str_eq(s, "kilograms") {
            Ok(TargetGoalUnit::Kilograms)
        } else if str_eq(s, "pounds") {
            Ok(TargetGoalUnit::Pounds)
        } else if str_eq(s, "ounces") {
            Ok(TargetGoalUnit::Ounces)
        } else if str_eq(s, "calories") {
            Ok(TargetGoalUnit::Calories)
        } else if str_eq(s, "unit") {
            Ok(TargetGoalUnit::Unit)
        } else {
            Err(ModelError::Validation)
        }
    }
}

/// Every canonical name reads back as the value it names.
pub proof fn lemma_target_goal_unit_text_round_trip(v: TargetGoalUnit)
    ensures
        TargetGoalUnit::from_text(v.text()) == Some(v),
{
    reveal_strlit("pages");
    reveal_strlit("words");
    reveal_strlit("minutes");
    reveal_strlit("hours");
    reveal_strlit("days");
    reveal_strlit("weeks");
    reveal_strlit("meters");
    reveal_strlit("kilometers");
    reveal_strlit("miles");
    reveal_strlit("hours_per_day");
    reveal_strlit("days_per_week");
    reveal_strlit("weeks_per_month");
    reveal_strlit("grams");
    reveal_strlit("kilograms");
    reveal_strlit("pounds");
    reveal_strlit("ounces");
    reveal_strlit("calories");
    reveal_strlit("unit");
    assert(TargetGoalUnit::Pages.text().len() == 5 && TargetGoalUnit::Pages.text()[0] == 'p');
    assert(TargetGoalUnit::Words.text().len() == 5 && TargetGoalUnit::Words.text()[0] == 'w'
        && TargetGoalUnit::Words.text()[1] == 'o');
    assert(TargetGoalUnit::Minutes.text().len() == 7);
    assert(TargetGoalUnit::Hours.text().len() == 5 && TargetGoalUnit::Hours.text()[0] == 'h');
    assert(TargetGoalUnit::Days.text().len() == 4 && TargetGoalUnit::Days.text()[0] == 'd');
    assert(TargetGoalUnit::Weeks.text().len() == 5 && TargetGoalUnit::Weeks.text()[0] == 'w'
        && TargetGoalUnit::Weeks.text()[1] == 'e');
    assert(TargetGoalUnit::Meters.text().len() == 6 && TargetGoalUnit::Meters.text()[0] == 'm');
    assert(TargetGoalUnit::Kilometers.text().len() == 10);
    assert(TargetGoalUnit::Miles.text().len() == 5 && TargetGoalUnit::Miles.text()[0] == 'm');
    assert(TargetGoalUnit::HoursPerDay.text().len() == 13
        && TargetGoalUnit::HoursPerDay.text()[0] == 'h');
    assert(TargetGoalUnit::DaysPerWeek.text().len() == 13
        && TargetGoalUnit::DaysPerWeek.text()[0] == 'd');
    assert(TargetGoalUnit::WeeksPerMonth.text().len() == 15);
    assert(TargetGoalUnit::Grams.text().len() == 5 && TargetGoalUnit::Grams.text()[0] == 'g');
    assert(TargetGoalUnit::Kilograms.text().len() == 9);
    assert(TargetGoalUnit::Pounds.text().len() == 6 && TargetGoalUnit::Pounds.text()[0] == 'p');
    assert(TargetGoalUnit::Ounces.text().len() == 6 && TargetGoalUnit::Ounces.text()[0] == 'o');
    assert(TargetGoalUnit::Calories.text().len() == 8);
    assert(TargetGoalUnit::Unit.text().len() == 4 && TargetGoalUnit::Unit.text()[0] == 'u');
}

/// Reading a canonical name, writing the value back out and reading that again gives what
/// the first reading gave.
pub proof fn lemma_target_goal_unit_reparse(s: Seq<char>)
    requires
        TargetGoalUnit::from_text(s) is Some,
    ensures
        TargetGoalUnit::from_text(TargetGoalUnit::from_text(s).unwrap().text())
            == TargetGoalUnit::from_text(s),
{
    lemma_target_goal_unit_text_round_trip(TargetGoalUnit::from_text(s).unwrap());
}

} // verus!
