use crate::error::ModelError;
use crate::text::str_eq;
use vstd::prelude::*;

verus! {

/// A day of the week.
#[derive(Debug, Clone, Copy, PartialEq, Eq, Structural, Hash, PartialOrd, Ord)]
pub enum Weekday {
    Monday,
    Tuesday,
    Wednesday,
    Thursday,
    Friday,
    Saturday,
    Sunday,
}

impl Weekday {
    /// The position of the day in the week, Monday first, from 0.
    pub open spec fn index(self) -> nat {
        match self {
            Weekday::Monday => 0,
            Weekday::Tuesday => 1,
            Weekday::Wednesday => 2,
            Weekday::Thursday => 3,
            Weekday::Friday => 4,
            Weekday::Saturday => 5,
            Weekday::Sunday => 6,
        }
    }

    /// The day at position `i` of the week, counted cyclically.
    pub open spec fn at(i: nat) -> Weekday {
        let i = i % 7;
        if i == 0 {
            Weekday::Monday
        } else if i == 1 {
            Weekday::Tuesday
        } else if i == 2 {
            Weekday::Wednesday
        } else if i == 3 {
            Weekday::Thursday
        } else if i == 4 {
            Weekday::Friday
        } else if i == 5 {
            Weekday::Saturday
        } else {
            Weekday::Sunday
        }
    }

    /// The day `n` days after this one.
    pub open spec fn after(self, n: nat) -> Weekday {
        Weekday::at(self.index() + n)
    }

    /// The day `n` days before this one.
    pub open spec fn before(self, n: nat) -> Weekday {
        Weekday::at((self.index() + 7 - n % 7) as nat)
    }

    /// How many days forward from `a` the next (or same) `b` is.
    pub open spec fn distance(a: Weekday, b: Weekday) -> nat {
        ((b.index() + 7 - a.index()) as nat) % 7
    }

    /// The canonical (snake_case) name.
    pub open spec fn text(self) -> Seq<char> {
        match self {
            Weekday::Monday => "monday"@,
            Weekday::Tuesday => "tuesday"@,
            Weekday::Wednesday => "wednesday"@,
            Weekday::Thursday => "thursday"@,
            Weekday::Friday => "friday"@,
            Weekday::Saturday => "saturday"@,
            Weekday::Sunday => "sunday"@,
        }
    }

    /// The value whose canonical name is `s`, if any.
    pub open spec fn from_text(s: Seq<char>) -> Option<Weekday> {
        if s == Weekday::Monday.text() {
            Some(Weekday::Monday)
        } else if s == Weekday::Tuesday.text() {
            Some(Weekday::Tuesday)
        } else if s == Weekday::Wednesday.text() {
            Some(Weekday::Wednesday)
        } else if s == Weekday::Thursday.text() {
            Some(Weekday::Thursday)
        } else if s == Weekday::Friday.text() {
            Some(Weekday::Friday)
        } else if s == Weekday::Saturday.text() {
            Some(Weekday::Saturday)
        } else if s == Weekday::Sunday.text() {
            Some(Weekday::Sunday)
        } else {
            None
        }
    }

    pub fn as_str(&self) -> (r: &'static str)
        ensures
            r@ == self.text(),
    {
        match self {
            Weekday::Monday => "monday",
            Weekday::Tuesday => "tuesday",
            Weekday::Wednesday => "wednesday",
            Weekday::Thursday => "thursday",
            Weekday::Friday => "friday",
            Weekday::Saturday => "saturday",
            Weekday::Sunday => "sunday",
        }
    }

    /// Parses a canonical name; any other text is a validation error.
    pub fn from_str(s: &str) -> (r: Result<Weekday, ModelError>)
        ensures
            r == match Weekday::from_text(s@) {
                Some(v) => Ok(v),
                None => Err(ModelError::Validation),
            },
    {
        if str_eq(s, "monday") {
            Ok(Weekday::Monday)
        } else if str_eq(s, "tuesday") {
            Ok(Weekday::Tuesday)
        } else if str_eq(s, "wednesday") {
            Ok(Weekday::Wednesday)
        } else if str_eq(s, "thursday") {
            Ok(Weekday::Thursday)
        } else if str_eq(s, "friday") {
            Ok(Weekday::Friday)
        } else if str_eq(s, "saturday") {
            Ok(Weekday::Saturday)
        } else if str_eq(s, "sunday") {
            Ok(Weekday::Sunday)
        } else {
            Err(ModelError::Validation)
        }
    }

    /// The three-letter abbreviation (`Mon`).
    pub open spec fn short_text(self) -> Seq<char> {
        match self {
            Weekday::Monday => "Mon"@,
            Weekday::Tuesday => "Tue"@,
            Weekday::Wednesday => "Wed"@,
            Weekday::Thursday => "Thu"@,
            Weekday::Friday => "Fri"@,
            Weekday::Saturday => "Sat"@,
            Weekday::Sunday => "Sun"@,
        }
    }

    /// The value whose abbreviation is `s`, if any.
    pub open spec fn from_short_text(s: Seq<char>) -> Option<Weekday> {
        if s == Weekday::Monday.short_text() {
            Some(Weekday::Monday)
        } else if s == Weekday::Tuesday.short_text() {
            Some(Weekday::Tuesday)
        } else if s == Weekday::Wednesday.short_text() {
            Some(Weekday::Wednesday)
        } else if s == Weekday::Thursday.short_text() {
            Some(Weekday::Thursday)
        } else if s == Weekday::Friday.short_text() {
            Some(Weekday::Friday)
        } else if s == Weekday::Saturday.short_text() {
            Some(Weekday::Saturday)
        } else if s == Weekday::Sunday.short_text() {
            Some(Weekday::Sunday)
        } else {
            None
        }
    }

    pub fn as_short_str(&self) -> (r: &'static str)
        ensures
            r@ == self.short_text(),
    {
        match self {
            Weekday::Monday => "Mon",
            Weekday::Tuesday => "Tue",
            Weekday::Wednesday => "Wed",
            Weekday::Thursday => "Thu",
            Weekday::Friday => "Fri",
            Weekday::Saturday => "Sat",
            Weekday::Sunday => "Sun",
        }
    }

    pub fn from_short_str(s: &str) -> (r: Option<Weekday>)
        ensures
            r == Weekday::from_short_text(s@),
    {
        if str_eq(s, "Mon") {
            Some(Weekday::Monday)
        } else if str_eq(s, "Tue") {
            Some(Weekday::Tuesday)
        } else if str_eq(s, "Wed") {
            Some(Weekday::Wednesday)
        } else if str_eq(s, "Thu") {
            Some(Weekday::Thursday)
        } else if str_eq(s, "Fri") {
            Some(Weekday::Friday)
        } else if str_eq(s, "Sat") {
            Some(Weekday::Saturday)
        } else if str_eq(s, "Sun") {
            Some(Weekday::Sunday)
        } else {
            None
        }
    }

    /// The upper-case three-letter abbreviation (`MON`).
    pub open spec fn upper_text(self) -> Seq<char> {
        match self {
            Weekday::Monday => "MON"@,
            Weekday::Tuesday => "TUE"@,
            Weekday::Wednesday => "WED"@,
            Weekday::Thursday => "THU"@,
            Weekday::Friday => "FRI"@,
            Weekday::Saturday => "SAT"@,
            Weekday::Sunday => "SUN"@,
        }
    }

    /// The value whose upper-case abbreviation is `s`, if any.
    pub open spec fn from_upper_text(s: Seq<char>) -> Option<Weekday> {
        if s == Weekday::Monday.upper_text() {
            Some(Weekday::Monday)
        } else if s == Weekday::Tuesday.upper_text() {
            Some(Weekday::Tuesday)
        } else if s == Weekday::Wednesday.upper_text() {
            Some(Weekday::Wednesday)
        } else if s == Weekday::Thursday.upper_text() {
            Some(Weekday::Thursday)
        } else if s == Weekday::Friday.upper_text() {
            Some(Weekday::Friday)
        } else if s == Weekday::Saturday.upper_text() {
            Some(Weekday::Saturday)
        } else if s == Weekday::Sunday.upper_text() {
            Some(Weekday::Sunday)
        } else {
            None
        }
    }

    pub fn as_short_str_uppercase(&self) -> (r: &'static str)
        ensures
            r@ == self.upper_text(),
    {
        match self {
            Weekday::Monday => "MON",
            Weekday::Tuesday => "TUE",
            Weekday::Wednesday => "WED",
            Weekday::Thursday => "THU",
            Weekday::Friday => "FRI",
            Weekday::Saturday => "SAT",
            Weekday::Sunday => "SUN",
        }
    }

    pub fn from_short_str_uppercase(s: &str) -> (r: Option<Weekday>)
        ensures
            r == Weekday::from_upper_text(s@),
    {
        if str_eq(s, "MON") {
            Some(Weekday::Monday)
        } else if str_eq(s, "TUE") {
            Some(Weekday::Tuesday)
        } else if str_eq(s, "WED") {
            Some(Weekday::Wednesday)
        } else if str_eq(s, "THU") {
            Some(Weekday::Thursday)
        } else if str_eq(s, "FRI") {
            Some(Weekday::Friday)
        } else if str_eq(s, "SAT") {
            Some(Weekday::Saturday)
        } else if str_eq(s, "SUN") {
            Some(Weekday::Sunday)
        } else {
            None
        }
    }

    /// The day with ISO-8601 number `n` (1 is Monday, 7 is Sunday).
    pub fn from_iso_number(n: u32) -> (r: Weekday)
        requires
            1 <= n <= 7,
        ensures
            r.index() == n - 1,
    {
        match n {
            1 => Weekday::Monday,
            2 => Weekday::Tuesday,
            3 => Weekday::Wednesday,
            4 => Weekday::Thursday,
            5 => Weekday::Friday,
            6 => Weekday::Saturday,
            _ => Weekday::Sunday,
        }
    }

    pub fn next(&self) -> (r: Weekday)
        ensures
            r == self.after(1),
    {
        match self {
            Weekday::Monday => Weekday::Tuesday,
            Weekday::Tuesday => Weekday::Wednesday,
            Weekday::Wednesday => Weekday::Thursday,
            Weekday::Thursday => Weekday::Friday,
            Weekday::Friday => Weekday::Saturday,
            Weekday::Saturday => Weekday::Sunday,
            Weekday::Sunday => Weekday::Monday,
        }
    }

    pub fn previous(&self) -> (r: Weekday)
        ensures
            r == self.before(1),
    {
        match self {
            Weekday::Monday => Weekday::Sunday,
            Weekday::Tuesday => Weekday::Monday,
            Weekday::Wednesday => Weekday::Tuesday,
            Weekday::Thursday => Weekday::Wednesday,
            Weekday::Friday => Weekday::Thursday,
            Weekday::Saturday => Weekday::Friday,
            Weekday::Sunday => Weekday::Saturday,
        }
    }

    pub fn next_n(&self, n: u32) -> (r: Weekday)
        ensures
            r == self.after(n as nat),
    {
        let mut next = *self;
        let mut i: u32 = 0;
        while i < n
            invariant
                i <= n,
                next == self.after(i as nat),
            decreases n - i,
        {
            next = next.next();
            i += 1;
        }
        next
    }

    pub fn previous_n(&self, n: u32) -> (r: Weekday)
        ensures
            r == self.before(n as nat),
    {
        let mut previous = *self;
        let mut i: u32 = 0;
        while i < n
            invariant
                i <= n,
                previous == self.before(i as nat),
            decreases n - i,
        {
            previous = previous.previous();
            i += 1;
        }
        previous
    }

    /// The days from `start` forward to `end`, both included; where `end` comes earlier in
    /// the week than `start`, the walk wraps past Sunday.
    pub fn range(start: Weekday, end: Weekday) -> (r: Vec<Weekday>)
        ensures
            r@.len() == Weekday::distance(start, end) + 1,
            forall|k: int| 0 <= k < r@.len() ==> r@[k] == start.after(k as nat),
    {
        let mut range: Vec<Weekday> = Vec::new();
        let mut current = start;
        while current != end
            invariant
                current == start.after(range@.len()),
                range@.len() + Weekday::distance(current, end) == Weekday::distance(start, end),
                forall|k: int| 0 <= k < range@.len() ==> range@[k] == start.after(k as nat),
            decreases Weekday::distance(current, end),
        {
            proof {
                lemma_step_toward(current, end);
                lemma_after_after(start, range@.len(), 1);
            }
            range.push(current);
            current = current.next();
        }
        range.push(end);
        range
    }
}

/// Positions are counted modulo the week.
proof fn lemma_at_index(i: nat)
    ensures
        Weekday::at(i).index() == i % 7,
{
}

/// Walking `a` days and then `b` more is walking `a + b` days.
proof fn lemma_after_after(w: Weekday, a: nat, b: nat)
    ensures
        w.after(a).after(b) == w.after(a + b),
{
    lemma_at_index(w.index() + a);
}

/// One step forward from a day other than `e` brings the walk one day closer to `e`.
proof fn lemma_step_toward(c: Weekday, e: Weekday)
    requires
        c != e,
    ensures
        Weekday::distance(c.after(1), e) + 1 == Weekday::distance(c, e),
{
    lemma_at_index(c.index() + 1);
}

/// Every canonical name reads back as the day it names.
pub proof fn lemma_weekday_text_round_trip(v: Weekday)
    ensures
        Weekday::from_text(v.text()) == Some(v),
{
    reveal_strlit("monday");
    reveal_strlit("tuesday");
    reveal_strlit("wednesday");
    reveal_strlit("thursday");
    reveal_strlit("friday");
    reveal_strlit("saturday");
    reveal_strlit("sunday");
    assert(Weekday::Monday.text().len() == 6 && Weekday::Monday.text()[0] == 'm');
    assert(Weekday::Tuesday.text().len() == 7);
    assert(Weekday::Wednesday.text().len() == 9);
    assert(Weekday::Thursday.text().len() == 8 && Weekday::Thursday.text()[0] == 't');
    assert(Weekday::Friday.text().len() == 6 && Weekday::Friday.text()[0] == 'f');
    assert(Weekday::Saturday.text().len() == 8 && Weekday::Saturday.text()[0] == 's');
    assert(Weekday::Sunday.text().len() == 6 && Weekday::Sunday.text()[0] == 's');
}

/// Every abbreviation reads back as the day it stands for.
pub proof fn lemma_weekday_short_round_trip(v: Weekday)
    ensures
        Weekday::from_short_text(v.short_text()) == Some(v),
{
    reveal_strlit("Mon");
    reveal_strlit("Tue");
    reveal_strlit("Wed");
    reveal_strlit("Thu");
    reveal_strlit("Fri");
    reveal_strlit("Sat");
    reveal_strlit("Sun");
    assert(Weekday::Monday.short_text().len() == 3 && Weekday::Monday.short_text()[0] == 'M');
    assert(Weekday::Tuesday.short_text().len() == 3 && Weekday::Tuesday.short_text()[0] == 'T'
        && Weekday::Tuesday.short_text()[1] == 'u');
    assert(Weekday::Wednesday.short_text().len() == 3 && Weekday::Wednesday.short_text()[0] == 'W');
    assert(Weekday::Thursday.short_text().len() == 3 && Weekday::Thursday.short_text()[0] == 'T'
        && Weekday::Thursday.short_text()[1] == 'h');
    assert(Weekday::Friday.short_text().len() == 3 && Weekday::Friday.short_text()[0] == 'F');
    assert(Weekday::Saturday.short_text().len() == 3 && Weekday::Saturday.short_text()[0] == 'S'
        && Weekday::Saturday.short_text()[1] == 'a');
    assert(Weekday::Sunday.short_text().len() == 3 && Weekday::Sunday.short_text()[0] == 'S'
        && Weekday::Sunday.short_text()[1] == 'u');
}

/// Every upper-case abbreviation reads back as the day it stands for.
pub proof fn lemma_weekday_upper_round_trip(v: Weekday)
    ensures
        Weekday::from_upper_text(v.upper_text()) == Some(v),
{
    reveal_strlit("MON");
    reveal_strlit("TUE");
    reveal_strlit("WED");
    reveal_strlit("THU");
    reveal_strlit("FRI");
    reveal_strlit("SAT");
    reveal_strlit("SUN");
    assert(Weekday::Monday.upper_text().len() == 3 && Weekday::Monday.upper_text()[0] == 'M');
    assert(Weekday::Tuesday.upper_text().len() == 3 && Weekday::Tuesday.upper_text()[0] == 'T'
        && Weekday::Tuesday.upper_text()[1] == 'U');
    assert(Weekday::Wednesday.upper_text().len() == 3 && Weekday::Wednesday.upper_text()[0] == 'W');
    assert(Weekday::Thursday.upper_text().len() == 3 && Weekday::Thursday.upper_text()[0] == 'T'
        && Weekday::Thursday.upper_text()[1] == 'H');
    assert(Weekday::Friday.upper_text().len() == 3 && Weekday::Friday.upper_text()[0] == 'F');
    assert(Weekday::Saturday.upper_text().len() == 3 && Weekday::Saturday.upper_text()[0] == 'S'
        && Weekday::Saturday.upper_text()[1] == 'A');
    assert(Weekday::Sunday.upper_text().len() == 3 && Weekday::Sunday.upper_text()[0] == 'S'
        && Weekday::Sunday.upper_text()[1] == 'U');
}

/// Reading a canonical name, writing the value back out and reading that again gives what
/// the first reading gave.
pub proof fn lemma_weekday_reparse(s: Seq<char>)
    requires
        Weekday::from_text(s) is Some,
    ensures
        Weekday::from_text(Weekday::from_text(s).unwrap().text()) == Weekday::from_text(s),
{
    lemma_weekday_text_round_trip(Weekday::from_text(s).unwrap());
}

} // verus!
