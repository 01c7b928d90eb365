use crate::error::ModelError;
use crate::text::str_eq;
use vstd::prelude::*;

verus! {

pub const SECONDS_PER_DAY: u64 = 86400;

pub const SECONDS_PER_WEEK: u64 = 604800;

pub const SECONDS_PER_MONTH: u64 = 2592000;

/// The time granularity over which a frequency target is measured.
#[derive(Debug, Clone, Copy, PartialEq, Eq, Structural, Hash, PartialOrd, Ord)]
pub enum DurationKind {
    Daily,
    Weekly,
    Monthly,
}

impl Default for DurationKind {
    fn default() -> (r: Self)
        ensures
            r == DurationKind::Daily,
    {
        DurationKind::Daily
    }
}

impl DurationKind {
    /// The canonical (snake_case) name.
    pub open spec fn text(self) -> Seq<char> {
        match self {
            DurationKind::Daily => "daily"@,
            DurationKind::Weekly => "weekly"@,
            DurationKind::Monthly => "monthly"@,
        }
    }

    /// The value whose canonical name is `s`, if any.
    pub open spec fn from_text(s: Seq<char>) -> Option<DurationKind> {
        if s == DurationKind::Daily.text() {
            Some(DurationKind::Daily)
        } else if s == DurationKind::Weekly.text() {
            Some(DurationKind::Weekly)
        } else if s == DurationKind::Monthly.text() {
            Some(DurationKind::Monthly)
        } else {
            None
        }
    }

    pub fn as_str(&self) -> (r: &'static str)
        ensures
            r@ == self.text(),
    {
        match self {
            DurationKind::Daily => "daily",
            DurationKind::Weekly => "weekly",
            DurationKind::Monthly => "monthly",
        }
    }

    /// Parses a canonical name; any other text is a validation error.
    pub fn from_str(s: &str) -> (r: Result<DurationKind, ModelError>)
        ensures
            r == match DurationKind::from_text(s@) {
                Some(v) => Ok(v),
                None => Err(ModelError::Validation),
            },
    {
        if str_eq(s, "daily") {
            Ok(DurationKind::Daily)
        } else if str_eq(s, "weekly") {
            Ok(DurationKind::Weekly)
        } else if str_eq(s, "monthly") {
            Ok(DurationKind::Monthly)
        } else {
            Err(ModelError::Validation)
        }
    }

    /// The length of one period, in seconds (a month counts as thirty days).
    pub open spec fn period(self) -> nat {
        match self {
            DurationKind::Daily => 86400,
            DurationKind::Weekly => 604800,
            DurationKind::Monthly => 2592000,
        }
    }

    pub fn period_seconds(&self) -> (r: u64)
        ensures
            r == self.period(),
    {
        match self {
            DurationKind::Daily => SECONDS_PER_DAY,
            DurationKind::Weekly => SECONDS_PER_WEEK,
            DurationKind::Monthly => SECONDS_PER_MONTH,
        }
    }

    /// The number of seconds in `quantity` periods, or `None` where that does not fit in a
    /// `u64`.
    pub fn to_duration(&self, quantity: u64) -> (r: Option<u64>)
        ensures
            r == if quantity * self.period() <= u64::MAX {
                Some((quantity * self.period()) as u64)
            } else {
                None::<u64>
            },
    {
        quantity.checked_mul(self.period_seconds())
    }

    /// The number of whole periods in `seconds`.
    pub fn from_duration(&self, seconds: u64) -> (r: u64)
        ensures
            r == seconds as nat / self.period(),
    {
        seconds / self.period_seconds()
    }
}

/// Every canonical name reads back as the value it names.
pub proof fn lemma_duration_kind_text_round_trip(v: DurationKind)
    ensures
        DurationKind::from_text(v.text()) == Some(v),
{
    reveal_strlit("daily");
    reveal_strlit("weekly");
    reveal_strlit("monthly");
    assert(DurationKind::Daily.text().len() == 5);
    assert(DurationKind::Weekly.text().len() == 6);
    assert(DurationKind::Monthly.text().len() == 7);
}

/// Reading a canonical name, writing the value back out and reading that again gives what
/// the first reading gave.
pub proof fn lemma_duration_kind_reparse(s: Seq<char>)
    requires
        DurationKind::from_text(s) is Some,
    ensures
        DurationKind::from_text(DurationKind::from_text(s).unwrap().text())
            == DurationKind::from_text(s),
{
    lemma_duration_kind_text_round_trip(DurationKind::from_text(s).unwrap());
}

/// Converting a quantity of periods to seconds and back gives the quantity again.
pub proof fn lemma_duration_round_trip(kind: DurationKind, quantity: nat)
    ensures
        (quantity * kind.period()) / kind.period() == quantity,
{
    vstd::arithmetic::div_mod::lemma_div_multiples_vanish(quantity as int, kind.period() as int);
}

} // verus!
