use crate::error::ModelError;
use crate::text::str_eq;
use vstd::prelude::*;

verus! {

/// The measurement unit of a frequency target. A tag only: no unit is converted into another.
#[derive(Debug, Clone, Copy, PartialEq, Eq, Structural, Hash, PartialOrd, Ord)]
pub enum UnitSystem {
    Count,
    Minutes,
    Hours,
    Days,
    Pages,
    Words,
    Currency,
    Milliliters,
    Liters,
    Gallons,
    Meters,
    Kilometers,
    Yards,
    Miles,
    Grams,
    Kilograms,
    Pounds,
    Ounces,
    Calories,
    Steps,
    Unit,
}

impl Default for UnitSystem {
    fn default() -> (r: Self)
        ensures
            r == UnitSystem::Unit,
    {
        UnitSystem::Unit
    }
}

impl UnitSystem {
    /// The canonical (snake_case) name.
    pub open spec fn text(self) -> Seq<char> {
        match self {
            UnitSystem::Count => "count"@,
            UnitSystem::Minutes => "minutes"@,
            UnitSystem::Hours => "hours"@,
            UnitSystem::Days => "days"@,
            UnitSystem::Pages => "pages"@,
            UnitSystem::Words => "words"@,
            UnitSystem::Currency => "currency"@,
            UnitSystem::Milliliters => "milliliters"@,
            UnitSystem::Liters => "liters"@,
            UnitSystem::Gallons => "gallons"@,
            UnitSystem::Meters => "meters"@,
            UnitSystem::Kilometers => "kilometers"@,
            UnitSystem::Yards => "yards"@,
            UnitSystem::Miles => "miles"@,
            UnitSystem::Grams => "grams"@,
            UnitSystem::Kilograms => "kilograms"@,
            UnitSystem::Pounds => "pounds"@,
            UnitSystem::Ounces => "ounces"@,
            UnitSystem::Calories => "calories"@,
            UnitSystem::Steps => "steps"@,
            UnitSystem::Unit => "unit"@,
        }
    }

    /// The value whose canonical name is `s`, if any.
    pub open spec fn from_text(s: Seq<char>) -> Option<UnitSystem> {
        if s == UnitSystem::Count.text() {
            Some(UnitSystem::Count)
        } else if s == UnitSystem::Minutes.text() {
            Some(UnitSystem::Minutes)
        } else if s == UnitSystem::Hours.text() {
            Some(UnitSystem::Hours)
        } else if s == UnitSystem::Days.text() {
            Some(UnitSystem::Days)
        } else if s == UnitSystem::Pages.text() {
            Some(UnitSystem::Pages)
        } else if s == UnitSystem::Words.text() {
            Some(UnitSystem::Words)
        } else if s == UnitSystem::Currency.text() {
            Some(UnitSystem::Currency)
        } else if s == UnitSystem::Milliliters.text() {
            Some(UnitSystem::Milliliters)
        } else if s == UnitSystem::Liters.text() {
            Some(UnitSystem::Liters)
        } else if s == UnitSystem::Gallons.text() {
            Some(UnitSystem::Gallons)
        } else if s == UnitSystem::Meters.text() {
            Some(UnitSystem::Meters)
        } else if s == UnitSystem::Kilometers.text() {
            Some(UnitSystem::Kilometers)
        } else if s == UnitSystem::Yards.text() {
            Some(UnitSystem::Yards)
        } else if s == UnitSystem::Miles.text() {
            Some(UnitSystem::Miles)
        } else if s == UnitSystem::Grams.text() {
            Some(UnitSystem::Grams)
        } else if s == UnitSystem::Kilograms.text() {
            Some(UnitSystem::Kilograms)
        } else if s == UnitSystem::Pounds.text() {
            Some(UnitSystem::Pounds)
        } else if s == UnitSystem::Ounces.text() {
            Some(UnitSystem::Ounces)
        } else if s == UnitSystem::Calories.text() {
            Some(UnitSystem::Calories)
        } else if s == UnitSystem::Steps.text() {
            Some(UnitSystem::Steps)
        } else if s == UnitSystem::Unit.text() {
            Some(UnitSystem::Unit)
        } else {
            None
        }
    }

    pub fn as_str(&self) -> (r: &'static str)
        ensures
            r@ == self.text(),
    {
        match self {
            UnitSystem::Count => "count",
            UnitSystem::Minutes => "minutes",
            UnitSystem::Hours => "hours",
            UnitSystem::Days => "days",
            UnitSystem::Pages => "pages",
            UnitSystem::Words => "words",
            UnitSystem::Currency => "currency",
            UnitSystem::Milliliters => "milliliters",
            UnitSystem::Liters => "liters",
            UnitSystem::Gallons => "gallons",
            UnitSystem::Meters => "meters",
            UnitSystem::Kilometers => "kilometers",
            UnitSystem::Yards => "yards",
            UnitSystem::Miles => "miles",
            UnitSystem::Grams => "grams",
            UnitSystem::Kilograms => "kilograms",
            UnitSystem::Pounds => "pounds",
            UnitSystem::Ounces => "ounces",
            UnitSystem::Calories => "calories",
            UnitSystem::Steps => "steps",
            UnitSystem::Unit => "unit",
        }
    }

    /// Parses a canonical name; any other text is a validation error.
    pub fn from_str(s: &str) -> (r: Result<UnitSystem, ModelError>)
        ensures
            r == match UnitSystem::from_text(s@) {
                Some(v) => Ok(v),
                None => Err(ModelError::Validation),
            },
    {
        if str_eq(s, "count") {
            Ok(UnitSystem::Count)
        } else if str_eq(s, "minutes") {
            Ok(UnitSystem::Minutes)
        } else if str_eq(s, "hours") {
            Ok(UnitSystem::Hours)
        } else if str_eq(s, "days") {
            Ok(UnitSystem::Days)
        } else if str_eq(s, "pages") {
            Ok(UnitSystem::Pages)
        } else if str_eq(s, "words") {
            Ok(UnitSystem::Words)
        } else if str_eq(s, "currency") {
            Ok(UnitSystem::Currency)
        } else if str_eq(s, "milliliters") {
            Ok(UnitSystem::Milliliters)
        } else if str_eq(s, "liters") {
            Ok(UnitSystem::Liters)
        } else if str_eq(s, "gallons") {
            Ok(UnitSystem::Gallons)
        } else if str_eq(s, "meters") {
            Ok(UnitSystem::Meters)
        } else if str_eq(s, "kilometers") {
            Ok(UnitSystem::Kilometers)
        } else if str_eq(s, "yards") {
            Ok(UnitSystem::Yards)
        } else if str_eq(s, "miles") {
            Ok(UnitSystem::Miles)
        } else if str_eq(s, "grams") {
            Ok(UnitSystem::Grams)
        } else if str_eq(s, "kilograms") {
            Ok(UnitSystem::Kilograms)
        } else if str_eq(s, "pounds") {
            Ok(UnitSystem::Pounds)
        } else if str_eq(s, "ounces") {
            Ok(UnitSystem::Ounces)
        } else if str_eq(s, "calories") {
            Ok(UnitSystem::Calories)
        } else if str_eq(s, "steps") {
            Ok(UnitSystem::Steps)
        } else if str_eq(s, "unit") {
            Ok(UnitSystem::Unit)
        } else {
            Err(ModelError::Validation)
        }
    }
}

/// Every canonical name reads back as the value it names.
pub proof fn lemma_unit_system_text_round_trip(v: UnitSystem)
    ensures
        UnitSystem::from_text(v.text()) == Some(v),
{
    reveal_strlit("count");
    reveal_strlit("minutes");
    reveal_strlit("hours");
    reveal_strlit("days");
    reveal_strlit("pages");
    reveal_strlit("words");
    reveal_strlit("currency");
    reveal_strlit("milliliters");
    reveal_strlit("liters");
    reveal_strlit("gallons");
    reveal_strlit("meters");
    reveal_strlit("kilometers");
    reveal_strlit("yards");
    reveal_strlit("miles");
    reveal_strlit("grams");
    reveal_strlit("kilograms");
    reveal_strlit("pounds");
    reveal_strlit("ounces");
    reveal_strlit("calories");
    reveal_strlit("steps");
    reveal_strlit("unit");
    assert(UnitSystem::Count.text().len() == 5 && UnitSystem::Count.text()[0] == 'c');
    assert(UnitSystem::Minutes.text().len() == 7 && UnitSystem::Minutes.text()[0] == 'm');
    assert(UnitSystem::Hours.text().len() == 5 && UnitSystem::Hours.text()[0] == 'h');
    assert(UnitSystem::Days.text().len() == 4 && UnitSystem::Days.text()[0] == 'd');
    assert(UnitSystem::Pages.text().len() == 5 && UnitSystem::Pages.text()[0] == 'p');
    assert(UnitSystem::Words.text().len() == 5 && UnitSystem::Words.text()[0] == 'w');
    assert(UnitSystem::Currency.text().len() == 8 && UnitSystem::Currency.text()[1] == 'u');
    assert(UnitSystem::Milliliters.text().len() == 11);
    assert(UnitSystem::Liters.text().len() == 6 && UnitSystem::Liters.text()[0] == 'l');
    assert(UnitSystem::Gallons.text().len() == 7 && UnitSystem::Gallons.text()[0] == 'g');
    assert(UnitSystem::Meters.text().len() == 6 && UnitSystem::Meters.text()[0] == 'm');
    assert(UnitSystem::Kilometers.text().len() == 10);
    assert(UnitSystem::Yards.text().len() == 5 && UnitSystem::Yards.text()[0] == 'y');
    assert(UnitSystem::Miles.text().len() == 5 && UnitSystem::Miles.text()[0] == 'm');
    assert(UnitSystem::Grams.text().len() == 5 && UnitSystem::Grams.text()[0] == 'g');
    assert(UnitSystem::Kilograms.text().len() == 9);
    assert(UnitSystem::Pounds.text().len() == 6 && UnitSystem::Pounds.text()[0] == 'p');
    assert(UnitSystem::Ounces.text().len() == 6 && UnitSystem::Ounces.text()[0] == 'o');
    assert(UnitSystem::Calories.text().len() == 8 && UnitSystem::Calories.text()[1] == 'a');
    assert(UnitSystem::Steps.text().len() == 5 && UnitSystem::Steps.text()[0] == 's');
    assert(UnitSystem::Unit.text().len() == 4 && UnitSystem::Unit.text()[0] == 'u');
}

/// Reading a canonical name, writing the value back out and reading that again gives what
/// the first reading gave.
pub proof fn lemma_unit_system_reparse(s: Seq<char>)
    requires
        UnitSystem::from_text(s) is Some,
    ensures
        UnitSystem::from_text(UnitSystem::from_text(s).unwrap().text()) == UnitSystem::from_text(s),
{
    lemma_unit_system_text_round_trip(UnitSystem::from_text(s).unwrap());
}

} // verus!
