use crate::compare::Compare;
use crate::copy::copy_opt_list;
use crate::duration_kind::DurationKind;
use crate::unit_system::UnitSystem;
use crate::weekday::Weekday;
use vstd::prelude::*;

verus! {

/// The seven days, Monday first.
pub open spec fn whole_week() -> Seq<Weekday> {
    seq![
        Weekday::Monday,
        Weekday::Tuesday,
        Weekday::Wednesday,
        Weekday::Thursday,
        Weekday::Friday,
        Weekday::Saturday,
        Weekday::Sunday,
    ]
}

fn whole_week_vec() -> (r: Vec<Weekday>)
    ensures
        r@ == whole_week(),
{
    let r = vec![
        Weekday::Monday,
        Weekday::Tuesday,
        Weekday::Wednesday,
        Weekday::Thursday,
        Weekday::Friday,
        Weekday::Saturday,
        Weekday::Sunday,
    ];
    assert(r@ =~= whole_week());
    r
}

/// A target: how much of what, over which period, on which days, and how a recorded value is
/// judged against it.
#[derive(Debug, Clone, PartialEq, Eq)]
pub struct Frequency {
    pub duration_kind: DurationKind,
    pub unit: UnitSystem,
    pub target_value: u32,
    pub weekdays: Option<Vec<Weekday>>,
    pub comparator: Compare,
}

impl Default for Frequency {
    /// Once a day, every day, counted.
    fn default() -> (r: Self)
        ensures
            r.duration_kind == DurationKind::Daily,
            r.unit == UnitSystem::Count,
            r.target_value == 1,
            r.days() == Some(whole_week()),
            r.comparator == Compare::GreaterOrEqual,
    {
        Frequency {
            duration_kind: DurationKind::Daily,
            unit: UnitSystem::Count,
            target_value: 1,
            weekdays: Some(whole_week_vec()),
            comparator: Compare::GreaterOrEqual,
        }
    }
}

impl Frequency {
    /// The active days, as a sequence.
    pub open spec fn days(&self) -> Option<Seq<Weekday>> {
        match self.weekdays {
            Some(w) => Some(w@),
            None => None,
        }
    }

    /// Only a daily target names the days it is active on.
    pub open spec fn well_formed(&self) -> bool {
        self.weekdays is Some ==> self.duration_kind == DurationKind::Daily
    }

    /// The days that `new` keeps: those given (all seven if none) for an explicitly daily
    /// target, none otherwise.
    pub open spec fn chosen_days(
        duration_kind: Option<DurationKind>,
        weekdays: Option<Seq<Weekday>>,
    ) -> Option<Seq<Weekday>> {
        if duration_kind == Some(DurationKind::Daily) {
            match weekdays {
                Some(w) => Some(w),
                None => Some(whole_week()),
            }
        } else {
            None
        }
    }

    pub open spec fn one_time(&self) -> bool {
        self.target_value == 1
    }

    pub open spec fn abstraction(&self) -> bool {
        self.target_value == 0
    }

    /// Builds a target from what the caller gives, taking the defaults for the rest (daily,
    /// counted, a target of one, greater-or-equal). Weekdays are kept only for an explicitly
    /// daily target, and are then all seven days unless given.
    pub fn new(
        duration_kind: Option<DurationKind>,
        unit: Option<UnitSystem>,
        target_value: Option<u32>,
        weekdays: Option<Vec<Weekday>>,
        comparator: Option<Compare>,
    ) -> (r: Frequency)
        ensures
            r.duration_kind == match duration_kind {
                Some(d) => d,
                None => DurationKind::Daily,
            },
            r.unit == match unit {
                Some(u) => u,
                None => UnitSystem::Count,
            },
            r.target_value == match target_value {
                Some(t) => t,
                None => 1u32,
            },
            r.days() == Frequency::chosen_days(
                duration_kind,
                match weekdays {
                    Some(w) => Some(w@),
                    None => None,
                },
            ),
            r.comparator == match comparator {
                Some(c) => c,
                None => Compare::GreaterOrEqual,
            },
            r.well_formed(),
    {
        let daily = match duration_kind {
            Some(DurationKind::Daily) => true,
            _ => false,
        };
        let days = if daily {
            match weekdays {
                Some(w) => Some(w),
                None => Some(whole_week_vec()),
            }
        } else {
            None
        };
        Frequency {
            duration_kind: match duration_kind {
                Some(d) => d,
                None => DurationKind::Daily,
            },
            unit: match unit {
                Some(u) => u,
                None => UnitSystem::Count,
            },
            target_value: match target_value {
                Some(t) => t,
                None => 1,
            },
            weekdays: days,
            comparator: match comparator {
                Some(c) => c,
                None => Compare::GreaterOrEqual,
            },
        }
    }

    /// A copy of the target.
    pub fn copied(&self) -> (r: Frequency)
        ensures
            r.duration_kind == self.duration_kind,
            r.unit == self.unit,
            r.target_value == self.target_value,
            r.days() == self.days(),
            r.comparator == self.comparator,
    {
        Frequency {
            duration_kind: self.duration_kind,
            unit: self.unit,
            target_value: self.target_value,
            weekdays: copy_opt_list(&self.weekdays),
            comparator: self.comparator,
        }
    }

    /// Whether the target is a single occurrence.
    pub fn is_one_time(&self) -> (r: bool)
        ensures
            r == self.one_time(),
    {
        self.target_value == 1
    }

    /// Whether the target is not quantified at all.
    pub fn is_abstraction(&self) -> (r: bool)
        ensures
            r == self.abstraction(),
    {
        self.target_value == 0
    }
}

/// A target that is not explicitly daily never keeps weekdays, whatever the caller gave.
pub proof fn lemma_non_daily_has_no_weekdays(
    duration_kind: Option<DurationKind>,
    weekdays: Option<Seq<Weekday>>,
)
    requires
        duration_kind != Some(DurationKind::Daily),
    ensures
        Frequency::chosen_days(duration_kind, weekdays) is None,
{
}

/// An explicitly daily target given no weekdays is active on all seven, Monday first.
pub proof fn lemma_daily_defaults_to_whole_week(duration_kind: Option<DurationKind>)
    requires
        duration_kind == Some(DurationKind::Daily),
    ensures
        Frequency::chosen_days(duration_kind, None) == Some(whole_week()),
        whole_week().len() == 7,
{
}

/// No target is both a single occurrence and unquantified, and a target other than zero or
/// one is neither.
pub proof fn lemma_one_time_excludes_abstraction(f: Frequency)
    ensures
        !(f.one_time() && f.abstraction()),
        f.target_value != 0 && f.target_value != 1 ==> !f.one_time() && !f.abstraction(),
{
}

} // verus!
