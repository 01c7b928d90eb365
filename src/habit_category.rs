use crate::error::ModelError;
use crate::text::str_eq;
use vstd::prelude::*;

verus! {

/// A topical category that habits are grouped under.
#[derive(Debug, Clone, Copy, PartialEq, Eq, Structural, Hash, PartialOrd, Ord)]
pub enum HabitCategory {
    Body,
    Mind,
    Health,
    Study,
    Productivity,
    Finance,
    Social,
    Abstraction,
    Other,
}

impl Default for HabitCategory {
    fn default() -> (r: Self)
        ensures
            r == HabitCategory::Other,
    {
        HabitCategory::Other
    }
}

impl HabitCategory {
    /// The canonical (snake_case) name.
    pub open spec fn text(self) -> Seq<char> {
        match self {
            HabitCategory::Body => "body"@,
            HabitCategory::Mind => "mind"@,
            HabitCategory::Health => "health"@,
            HabitCategory::Study => "study"@,
            HabitCategory::Productivity => "productivity"@,
            HabitCategory::Finance => "finance"@,
            HabitCategory::Social => "social"@,
            HabitCategory::Abstraction => "abstraction"@,
            HabitCategory::Other => "other"@,
        }
    }

    /// The value whose canonical name is `s`, if any.
    pub open spec fn from_text(s: Seq<char>) -> Option<HabitCategory> {
        if s == HabitCategory::Body.text() {
            Some(HabitCategory::Body)
        } else if s == HabitCategory::Mind.text() {
            Some(HabitCategory::Mind)
        } else if s == HabitCategory::Health.text() {
            Some(HabitCategory::Health)
        } else if s == HabitCategory::Study.text() {
            Some(HabitCategory::Study)
        } else if s == HabitCategory::Productivity.text() {
            Some(HabitCategory::Productivity)
        } else if s == HabitCategory::Finance.text() {
            Some(HabitCategory::Finance)
        } else if s == HabitCategory::Social.text() {
            Some(HabitCategory::Social)
        } else if s == HabitCategory::Abstraction.text() {
            Some(HabitCategory::Abstraction)
        } else if s == HabitCategory::Other.text() {
            Some(HabitCategory::Other)
        } else {
            None
        }
    }

    pub fn as_str(&self) -> (r: &'static str)
        ensures
            r@ == self.text(),
    {
        match self {
            HabitCategory::Body => "body",
            HabitCategory::Mind => "mind",
            HabitCategory::Health => "health",
            HabitCategory::Study => "study",
            HabitCategory::Productivity => "productivity",
            HabitCategory::Finance => "finance",
            HabitCategory::Social => "social",
            HabitCategory::Abstraction => "abstraction",
            HabitCategory::Other => "other",
        }
    }

    /// Parses a canonical name; any other text is a validation error.
    pub fn from_str(s: &str) -> (r: Result<HabitCategory, ModelError>)
        ensures
            r == match HabitCategory::from_text(s@) {
                Some(v) => Ok(v),
                None => Err(ModelError::Validation),
            },
    {
        if str_eq(s, "body") {
            Ok(HabitCategory::Body)
        } else if str_eq(s, "mind") {
            Ok(HabitCategory::Mind)
        } else if str_eq(s, "health") {
            Ok(HabitCategory::Health)
        } else if str_eq(s, "study") {
            Ok(HabitCategory::Study)
        } else if str_eq(s, "productivity") {
            Ok(HabitCategory::Productivity)
        } else if str_eq(s, "finance") {
            Ok(HabitCategory::Finance)
        } else if str_eq(s, "social") {
            Ok(HabitCategory::Social)
        } else if str_eq(s, "abstraction") {
            Ok(HabitCategory::Abstraction)
        } else if str_eq(s, "other") {
            Ok(HabitCategory::Other)
        } else {
            Err(ModelError::Validation)
        }
    }
}

/// Every canonical name reads back as the value it names.
pub proof fn lemma_habit_category_text_round_trip(v: HabitCategory)
    ensures
        HabitCategory::from_text(v.text()) == Some(v),
{
    reveal_strlit("body");
    reveal_strlit("mind");
    reveal_strlit("health");
    reveal_strlit("study");
    reveal_strlit("productivity");
    reveal_strlit("finance");
    reveal_strlit("social");
    reveal_strlit("abstraction");
    reveal_strlit("other");
    assert(HabitCategory::Body.text().len() == 4 && HabitCategory::Body.text()[0] == 'b');
    assert(HabitCategory::Mind.text().len() == 4 && HabitCategory::Mind.text()[0] == 'm');
    assert(HabitCategory::Health.text().len() == 6 && HabitCategory::Health.text()[0] == 'h');
    assert(HabitCategory::Study.text().len() == 5 && HabitCategory::Study.text()[0] == 's');
    assert(HabitCategory::Productivity.text().len() == 12);
    assert(HabitCategory::Finance.text().len() == 7);
    assert(HabitCategory::Social.text().len() == 6 && HabitCategory::Social.text()[0] == 's');
    assert(HabitCategory::Abstraction.text().len() == 11);
    assert(HabitCategory::Other.text().len() == 5 && HabitCategory::Other.text()[0] == 'o');
}

/// Reading a canonical name, writing the value back out and reading that again gives what
/// the first reading gave.
pub proof fn lemma_habit_category_reparse(s: Seq<char>)
    requires
        HabitCategory::from_text(s) is Some,
    ensures
        HabitCategory::from_text(HabitCategory::from_text(s).unwrap().text())
            == HabitCategory::from_text(s),
{
    lemma_habit_category_text_round_trip(HabitCategory::from_text(s).unwrap());
}

} // verus!
