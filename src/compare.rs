use crate::error::ModelError;
use crate::text::str_eq;
use core::cmp::Ordering;
use vstd::std_specs::cmp::PartialOrdSpec;
use vstd::prelude::*;

verus! {

/// A comparison operator, used to judge a recorded value against a target.
#[derive(Debug, Clone, Copy, PartialEq, Eq, Structural, Hash, PartialOrd, Ord)]
pub enum Compare {
    Greater,
    GreaterOrEqual,
    Equal,
    NotEqual,
    LessOrEqual,
    Less,
}

impl Default for Compare {
    fn default() -> (r: Self)
        ensures
            r == Compare::Equal,
    {
        Compare::Equal
    }
}

impl Compare {
    /// The canonical (snake_case) name of the operator.
    pub open spec fn text(self) -> Seq<char> {
        match self {
            Compare::Greater => "greater"@,
            Compare::GreaterOrEqual => "greater_or_equal"@,
            Compare::Equal => "equal"@,
            Compare::NotEqual => "not_equal"@,
            Compare::LessOrEqual => "less_or_equal"@,
            Compare::Less => "less"@,
        }
    }

    /// The operator whose canonical name is `s`, if any.
    pub open spec fn from_text(s: Seq<char>) -> Option<Compare> {
        if s == Compare::Greater.text() {
            Some(Compare::Greater)
        } else if s == Compare::GreaterOrEqual.text() {
            Some(Compare::GreaterOrEqual)
        } else if s == Compare::Equal.text() {
            Some(Compare::Equal)
        } else if s == Compare::NotEqual.text() {
            Some(Compare::NotEqual)
        } else if s == Compare::LessOrEqual.text() {
            Some(Compare::LessOrEqual)
        } else if s == Compare::Less.text() {
            Some(Compare::Less)
        } else {
            None
        }
    }

    /// The symbolic form of the operator.
    pub open spec fn symbol(self) -> Seq<char> {
        match self {
            Compare::Greater => ">"@,
            Compare::GreaterOrEqual => ">="@,
            Compare::Equal => "=="@,
            Compare::NotEqual => "!="@,
            Compare::LessOrEqual => "<="@,
            Compare::Less => "<"@,
        }
    }

    /// The operator whose symbol is `s`, if any.
    pub open spec fn from_symbol(s: Seq<char>) -> Option<Compare> {
        if s == Compare::Greater.symbol() {
            Some(Compare::Greater)
        } else if s == Compare::GreaterOrEqual.symbol() {
            Some(Compare::GreaterOrEqual)
        } else if s == Compare::Equal.symbol() {
            Some(Compare::Equal)
        } else if s == Compare::NotEqual.symbol() {
            Some(Compare::NotEqual)
        } else if s == Compare::LessOrEqual.symbol() {
            Some(Compare::LessOrEqual)
        } else if s == Compare::Less.symbol() {
            Some(Compare::Less)
        } else {
            None
        }
    }

    /// Whether the operator accepts a pair whose three-way comparison came out as `o`
    /// (`None` for an unordered pair, which only `NotEqual` accepts).
    pub open spec fn accepts(self, o: Option<Ordering>) -> bool {
        match self {
            Compare::Greater => o == Some(Ordering::Greater),
            Compare::GreaterOrEqual => o == Some(Ordering::Greater) || o == Some(Ordering::Equal),
            Compare::Equal => o == Some(Ordering::Equal),
            Compare::NotEqual => o != Some(Ordering::Equal),
            Compare::LessOrEqual => o == Some(Ordering::Less) || o == Some(Ordering::Equal),
            Compare::Less => o == Some(Ordering::Less),
        }
    }

    pub fn as_str(&self) -> (r: &'static str)
        ensures
            r@ == self.text(),
    {
        match self {
            Compare::Greater => "greater",
            Compare::GreaterOrEqual => "greater_or_equal",
            Compare::Equal => "equal",
            Compare::NotEqual => "not_equal",
            Compare::LessOrEqual => "less_or_equal",
            Compare::Less => "less",
        }
    }

    /// Parses a canonical name; any other text is a validation error.
    pub fn from_str(s: &str) -> (r: Result<Compare, ModelError>)
        ensures
            r == match Compare::from_text(s@) {
                Some(c) => Ok(c),
                None => Err(ModelError::Validation),
            },
    {
        if str_eq(s, "greater") {
            Ok(Compare::Greater)
        } else if str_eq(s, "greater_or_equal") {
            Ok(Compare::GreaterOrEqual)
        } else if str_eq(s, "equal") {
            Ok(Compare::Equal)
        } else if str_eq(s, "not_equal") {
            Ok(Compare::NotEqual)
        } else if str_eq(s, "less_or_equal") {
            Ok(Compare::LessOrEqual)
        } else if str_eq(s, "less") {
            Ok(Compare::Less)
        } else {
            Err(ModelError::Validation)
        }
    }

    pub fn from_symbol_str(s: &str) -> (r: Option<Compare>)
        ensures
            r == Compare::from_symbol(s@),
    {
        if str_eq(s, ">") {
            Some(Compare::Greater)
        } else if str_eq(s, ">=") {
            Some(Compare::GreaterOrEqual)
        } else if str_eq(s, "==") {
            Some(Compare::Equal)
        } else if str_eq(s, "!=") {
            Some(Compare::NotEqual)
        } else if str_eq(s, "<=") {
            Some(Compare::LessOrEqual)
        } else if str_eq(s, "<") {
            Some(Compare::Less)
        } else {
            None
        }
    }

    pub fn to_symbol_str(&self) -> (r: &'static str)
        ensures
            r@ == self.symbol(),
    {
        match self {
            Compare::Greater => ">",
            Compare::GreaterOrEqual => ">=",
            Compare::Equal => "==",
            Compare::NotEqual => "!=",
            Compare::LessOrEqual => "<=",
            Compare::Less => "<",
        }
    }

    /// Applies the operator to `a` and `b`, by their three-way comparison.
    pub fn compare<U: PartialOrd>(&self, a: U, b: U) -> (r: bool)
        ensures
            U::obeys_partial_cmp_spec() ==> r == self.accepts(a.partial_cmp_spec(&b)),
    {
        let o = a.partial_cmp(&b);
        match self {
            Compare::Greater => matches!(o, Some(Ordering::Greater)),
            Compare::GreaterOrEqual => matches!(o, Some(Ordering::Greater) | Some(Ordering::Equal)),
            Compare::Equal => matches!(o, Some(Ordering::Equal)),
            Compare::NotEqual => !matches!(o, Some(Ordering::Equal)),
            Compare::LessOrEqual => matches!(o, Some(Ordering::Less) | Some(Ordering::Equal)),
            Compare::Less => matches!(o, Some(Ordering::Less)),
        }
    }
}

/// Every canonical name reads back as the operator it names.
pub proof fn lemma_compare_text_round_trip(c: Compare)
    ensures
        Compare::from_text(c.text()) == Some(c),
{
    reveal_strlit("greater");
    reveal_strlit("greater_or_equal");
    reveal_strlit("equal");
    reveal_strlit("not_equal");
    reveal_strlit("less_or_equal");
    reveal_strlit("less");
    assert(Compare::Greater.text().len() == 7);
    assert(Compare::GreaterOrEqual.text().len() == 16);
    assert(Compare::Equal.text().len() == 5);
    assert(Compare::NotEqual.text().len() == 9);
    assert(Compare::LessOrEqual.text().len() == 13);
    assert(Compare::Less.text().len() == 4);
}

/// Reading a canonical name, writing the operator back out and reading that again gives what
/// the first reading gave.
pub proof fn lemma_compare_reparse(s: Seq<char>)
    requires
        Compare::from_text(s) is Some,
    ensures
        Compare::from_text(Compare::from_text(s).unwrap().text()) == Compare::from_text(s),
{
    lemma_compare_text_round_trip(Compare::from_text(s).unwrap());
}

/// Every symbol reads back as the operator it stands for.
pub proof fn lemma_compare_symbol_round_trip(c: Compare)
    ensures
        Compare::from_symbol(c.symbol()) == Some(c),
{
    reveal_strlit(">");
    reveal_strlit(">=");
    reveal_strlit("==");
    reveal_strlit("!=");
    reveal_strlit("<=");
    reveal_strlit("<");
    assert(Compare::Greater.symbol().len() == 1 && Compare::Greater.symbol()[0] == '>');
    assert(Compare::Less.symbol().len() == 1 && Compare::Less.symbol()[0] == '<');
    assert(Compare::GreaterOrEqual.symbol().len() == 2 && Compare::GreaterOrEqual.symbol()[0]
        == '>');
    assert(Compare::Equal.symbol().len() == 2 && Compare::Equal.symbol()[0] == '=');
    assert(Compare::NotEqual.symbol().len() == 2 && Compare::NotEqual.symbol()[0] == '!');
    assert(Compare::LessOrEqual.symbol().len() == 2 && Compare::LessOrEqual.symbol()[0] == '<');
}

} // verus!
