use crate::error::ModelError;
use crate::text::str_eq;
use crate::compare::Compare;
use crate::duration_kind::DurationKind;
use crate::frequency::Frequency;
use crate::unit_system::UnitSystem;
use vstd::prelude::*;

verus! {

/// A habit of the built-in catalogue, or a custom one.
#[derive(Debug, Clone, Copy, PartialEq, Eq, Structural, Hash, PartialOrd, Ord)]
pub enum HabitName {
    Exercise,
    Meditation,
    Reading,
    Writing,
    Programming,
    Learning,
    Drawing,
    Music,
    Journaling,
    Walking,
    Running,
    Cycling,
    Swimming,
    Yoga,
    Cooking,
    Cleaning,
    Gardening,
    Socializing,
    MartialArts,
    LearningLanguage,
    Investing,
    SavingMoney,
    OnlineCourse,
    SleepTracking,
    NoSmoking,
    NoDrinking,
    NoSugar,
    NoFastFood,
    Custom,
}

impl Default for HabitName {
    fn default() -> (r: Self)
        ensures
            r == HabitName::Custom,
    {
        HabitName::Custom
    }
}

/// What the catalogue says of a habit: how it is shown, whom it suits, and its usual target.
pub struct HabitInfo {
    pub name: String,
    pub description: String,
    pub is_suitable_for_minors: bool,
    pub icon: Option<String>,
    pub frequency: Frequency,
    pub compare: Compare,
}

impl HabitName {
    /// The canonical (snake_case) name.
    pub open spec fn text(self) -> Seq<char> {
        match self {
            HabitName::Exercise => "exercise"@,
            HabitName::Meditation => "meditation"@,
            HabitName::Reading => "reading"@,
            HabitName::Writing => "writing"@,
            HabitName::Programming => "programming"@,
            HabitName::Learning => "learning"@,
            HabitName::Drawing => "drawing"@,
            HabitName::Music => "music"@,
            HabitName::Journaling => "journaling"@,
            HabitName::Walking => "walking"@,
            HabitName::Running => "running"@,
            HabitName::Cycling => "cycling"@,
            HabitName::Swimming => "swimming"@,
            HabitName::Yoga => "yoga"@,
            HabitName::Cooking => "cooking"@,
            HabitName::Cleaning => "cleaning"@,
            HabitName::Gardening => "gardening"@,
            HabitName::Socializing => "socializing"@,
            HabitName::MartialArts => "martial_arts"@,
            HabitName::LearningLanguage => "learning_language"@,
            HabitName::Investing => "investing"@,
            HabitName::SavingMoney => "saving_money"@,
            HabitName::OnlineCourse => "online_course"@,
            HabitName::SleepTracking => "sleep_tracking"@,
            HabitName::NoSmoking => "no_smoking"@,
            HabitName::NoDrinking => "no_drinking"@,
            HabitName::NoSugar => "no_sugar"@,
            HabitName::NoFastFood => "no_fast_food"@,
            HabitName::Custom => "custom"@,
        }
    }

    /// The value whose canonical name is `s`, if any.
    pub open spec fn from_text(s: Seq<char>) -> Option<HabitName> {
        if s == HabitName::Exercise.text() {
            Some(HabitName::Exercise)
        } else if s == HabitName::Meditation.text() {
            Some(HabitName::Meditation)
        } else if s == HabitName::Reading.text() {
            Some(HabitName::Reading)
        } else if s == HabitName::Writing.text() {
            Some(HabitName::Writing)
        } else if s == HabitName::Programming.text() {
            Some(HabitName::Programming)
        } else if s == HabitName::Learning.text() {
            Some(HabitName::Learning)
        } else if s == HabitName::Drawing.text() {
            Some(HabitName::Drawing)
        } else if s == HabitName::Music.text() {
            Some(HabitName::Music)
        } else if s == HabitName::Journaling.text() {
            Some(HabitName::Journaling)
        } else if s == HabitName::Walking.text() {
            Some(HabitName::Walking)
        } else if s == HabitName::Running.text() {
            Some(HabitName::Running)
        } else if s == HabitName::Cycling.text() {
            Some(HabitName::Cycling)
        } else if s == HabitName::Swimming.text() {
            Some(HabitName::Swimming)
        } else if s == HabitName::Yoga.text() {
            Some(HabitName::Yoga)
        } else if s == HabitName::Cooking.text() {
            Some(HabitName::Cooking)
        } else if s == HabitName::Cleaning.text() {
            Some(HabitName::Cleaning)
        } else if s == HabitName::Gardening.text() {
            Some(HabitName::Gardening)
        } else if s == HabitName::Socializing.text() {
            Some(HabitName::Socializing)
        } else if s == HabitName::MartialArts.text() {
            Some(HabitName::MartialArts)
        } else if s == HabitName::LearningLanguage.text() {
            Some(HabitName::LearningLanguage)
        } else if s == HabitName::Investing.text() {
            Some(HabitName::Investing)
        } else if s == HabitName::SavingMoney.text() {
            Some(HabitName::SavingMoney)
        } else if s == HabitName::OnlineCourse.text() {
            Some(HabitName::OnlineCourse)
        } else if s == HabitName::SleepTracking.text() {
            Some(HabitName::SleepTracking)
        } else if s == HabitName::NoSmoking.text() {
            Some(HabitName::NoSmoking)
        } else if s == HabitName::NoDrinking.text() {
            Some(HabitName::NoDrinking)
        } else if s == HabitName::NoSugar.text() {
            Some(HabitName::NoSugar)
        } else if s == HabitName::NoFastFood.text() {
            Some(HabitName::NoFastFood)
        } else if s == HabitName::Custom.text() {
            Some(HabitName::Custom)
        } else {
            None
        }
    }

    pub fn as_str(&self) -> (r: &'static str)
        ensures
            r@ == self.text(),
    {
        match self {
            HabitName::Exercise => "exercise",
            HabitName::Meditation => "meditation",
            HabitName::Reading => "reading",
            HabitName::Writing => "writing",
            HabitName::Programming => "programming",
            HabitName::Learning => "learning",
            HabitName::Drawing => "drawing",
            HabitName::Music => "music",
            HabitName::Journaling => "journaling",
            HabitName::Walking => "walking",
            HabitName::Running => "running",
            HabitName::Cycling => "cycling",
            HabitName::Swimming => "swimming",
            HabitName::Yoga => "yoga",
            HabitName::Cooking => "cooking",
            HabitName::Cleaning => "cleaning",
            HabitName::Gardening => "gardening",
            HabitName::Socializing => "socializing",
            HabitName::MartialArts => "martial_arts",
            HabitName::LearningLanguage => "learning_language",
            HabitName::Investing => "investing",
            HabitName::SavingMoney => "saving_money",
            HabitName::OnlineCourse => "online_course",
            HabitName::SleepTracking => "sleep_tracking",
            HabitName::NoSmoking => "no_smoking",
            HabitName::NoDrinking => "no_drinking",
            HabitName::NoSugar => "no_sugar",
            HabitName::NoFastFood => "no_fast_food",
            HabitName::Custom => "custom",
        }
    }

    /// Parses a canonical name; any other text is a validation error.
    pub fn from_str(s: &str) -> (r: Result<HabitName, ModelError>)
        ensures
            r == match HabitName::from_text(s@) {
                Some(v) => Ok(v),
                None => Err(ModelError::Validation),
            },
    {
        if str_eq(s, "exercise") {
            Ok(HabitName::Exercise)
        } else if str_eq(s, "meditation") {
            Ok(HabitName::Meditation)
        } else if str_eq(s, "reading") {
            Ok(HabitName::Reading)
        } else if str_eq(s, "writing") {
            Ok(HabitName::Writing)
        } else if str_eq(s, "programming") {
            Ok(HabitName::Programming)
        } else if str_eq(s, "learning") {
            Ok(HabitName::Learning)
        } else if str_eq(s, "drawing") {
            Ok(HabitName::Drawing)
        } else if str_eq(s, "music") {
            Ok(HabitName::Music)
        } else if str_eq(s, "journaling") {
            Ok(HabitName::Journaling)
        } else if str_eq(s, "walking") {
            Ok(HabitName::Walking)
        } else if str_eq(s, "running") {
            Ok(HabitName::Running)
        } else if str_eq(s, "cycling") {
            Ok(HabitName::Cycling)
        } else if str_eq(s, "swimming") {
            Ok(HabitName::Swimming)
        } else if str_eq(s, "yoga") {
            Ok(HabitName::Yoga)
        } else if str_eq(s, "cooking") {
            Ok(HabitName::Cooking)
        } else if str_eq(s, "cleaning") {
            Ok(HabitName::Cleaning)
        } else if str_eq(s, "gardening") {
            Ok(HabitName::Gardening)
        } else if str_eq(s, "socializing") {
            Ok(HabitName::Socializing)
        } else if str_eq(s, "martial_arts") {
            Ok(HabitName::MartialArts)
        } else if str_eq(s, "learning_language") {
            Ok(HabitName::LearningLanguage)
        } else if str_eq(s, "investing") {
            Ok(HabitName::Investing)
        } else if str_eq(s, "saving_money") {
            Ok(HabitName::SavingMoney)
        } else if str_eq(s, "online_course") {
            Ok(HabitName::OnlineCourse)
        } else if str_eq(s, "sleep_tracking") {
            Ok(HabitName::SleepTracking)
        } else if str_eq(s, "no_smoking") {
            Ok(HabitName::NoSmoking)
        } else if str_eq(s, "no_drinking") {
            Ok(HabitName::NoDrinking)
        } else if str_eq(s, "no_sugar") {
            Ok(HabitName::NoSugar)
        } else if str_eq(s, "no_fast_food") {
            Ok(HabitName::NoFastFood)
        } else if str_eq(s, "custom") {
            Ok(HabitName::Custom)
        } else {
            Err(ModelError::Validation)
        }
    }

    /// The name shown to people.
    pub open spec fn title(self) -> Seq<char> {
        match self {
            HabitName::Exercise => "Exercise"@,
            HabitName::Meditation => "Meditation"@,
            HabitName::Reading => "Reading"@,
            HabitName::Writing => "Writing"@,
            HabitName::Programming => "Programming"@,
            HabitName::Learning => "Learning"@,
            HabitName::Drawing => "Drawing"@,
            HabitName::Music => "Music"@,
            HabitName::Journaling => "Journaling"@,
            HabitName::Walking => "Walking"@,
            HabitName::Running => "Running"@,
            HabitName::Cycling => "Cycling"@,
            HabitName::Swimming => "Swimming"@,
            HabitName::Yoga => "Yoga"@,
            HabitName::Cooking => "Cooking"@,
            HabitName::Cleaning => "Cleaning"@,
            HabitName::Gardening => "Gardening"@,
            HabitName::Socializing => "Socializing"@,
            HabitName::MartialArts => "Martial Arts"@,
            HabitName::LearningLanguage => "Learning a Language"@,
            HabitName::Investing => "Investing"@,
            HabitName::SavingMoney => "Saving Money"@,
            HabitName::OnlineCourse => "Online Course"@,
            HabitName::SleepTracking => "Sleep Tracking"@,
            HabitName::NoSmoking => "No Smoking"@,
            HabitName::NoDrinking => "No Drinking"@,
            HabitName::NoSugar => "No Sugar"@,
            HabitName::NoFastFood => "No Fast Food"@,
            HabitName::Custom => "Custom"@,
        }
    }

    /// The one-line description of the habit.
    pub open spec fn blurb(self) -> Seq<char> {
        match self {
            HabitName::Exercise => "Perform any physical activity that gets your heart rate up."@,
            HabitName::Meditation => "Practice mindfulness and meditation."@,
            HabitName::Reading => "Read any book or blog."@,
            HabitName::Writing => "Write a blog post, journal entry, or any other text."@,
            HabitName::Programming => "Write code for a project or learn a new programming language."@,
            HabitName::Learning => "Learn a new skill or study for a test."@,
            HabitName::Drawing => "Draw a picture or sketch."@,
            HabitName::Music => "Play an instrument or sing."@,
            HabitName::Journaling => "Write a journal entry or diary."@,
            HabitName::Walking => "Go for a walk."@,
            HabitName::Running => "Go for a run or jog."@,
            HabitName::Cycling => "Go for a bike ride."@,
            HabitName::Swimming => "Go for a swim."@,
            HabitName::Yoga => "Practice yoga or stretching."@,
            HabitName::Cooking => "Cook a meal or bake something."@,
            HabitName::Cleaning => "Clean your home or workspace."@,
            HabitName::Gardening => "Plant or tend to a garden."@,
            HabitName::Socializing => "Spend time with friends or family."@,
            HabitName::MartialArts => "Practice martial arts or self-defense."@,
            HabitName::LearningLanguage => "Learn a new language or practice one you already know."@,
            HabitName::Investing => "Invest in stocks, bonds, or cryptocurrency."@,
            HabitName::SavingMoney => "Save money for a goal or retirement."@,
            HabitName::OnlineCourse => "Take an online course or class."@,
            HabitName::SleepTracking => "Track your sleep or take a nap."@,
            HabitName::NoSmoking => "Don't smoke or use tobacco products."@,
            HabitName::NoDrinking => "Don't drink alcohol or use drugs."@,
            HabitName::NoSugar => "Don't eat any sugar or sweets."@,
            HabitName::NoFastFood => "Don't eat any fast food or junk food."@,
            HabitName::Custom => "Create a custom habit."@,
        }
    }

    /// Whether the habit is meant for minors too.
    pub open spec fn suits_minors(self) -> bool {
        match self {
            HabitName::Exercise => true,
            HabitName::Meditation => true,
            HabitName::Reading => true,
            HabitName::Writing => true,
            HabitName::Programming => true,
            HabitName::Learning => true,
            HabitName::Drawing => true,
            HabitName::Music => true,
            HabitName::Journaling => true,
            HabitName::Walking => true,
            HabitName::Running => true,
            HabitName::Cycling => true,
            HabitName::Swimming => true,
            HabitName::Yoga => true,
            HabitName::Cooking => true,
            HabitName::Cleaning => true,
            HabitName::Gardening => true,
            HabitName::Socializing => true,
            HabitName::MartialArts => true,
            HabitName::LearningLanguage => true,
            HabitName::Investing => false,
            HabitName::SavingMoney => false,
            HabitName::OnlineCourse => true,
            HabitName::SleepTracking => true,
            HabitName::NoSmoking => false,
            HabitName::NoDrinking => false,
            HabitName::NoSugar => true,
            HabitName::NoFastFood => true,
            HabitName::Custom => true,
        }
    }

    /// The unit of the usual target, where it names one.
    pub open spec fn usual_unit(self) -> Option<UnitSystem> {
        match self {
            HabitName::Exercise => Some(UnitSystem::Minutes),
            HabitName::Meditation => Some(UnitSystem::Minutes),
            HabitName::Reading => Some(UnitSystem::Minutes),
            HabitName::Writing => Some(UnitSystem::Minutes),
            HabitName::Programming => Some(UnitSystem::Minutes),
            HabitName::Learning => Some(UnitSystem::Minutes),
            HabitName::Drawing => Some(UnitSystem::Minutes),
            HabitName::Music => Some(UnitSystem::Minutes),
            HabitName::Journaling => None,
            HabitName::Walking => Some(UnitSystem::Steps),
            HabitName::Running => Some(UnitSystem::Steps),
            HabitName::Cycling => Some(UnitSystem::Kilometers),
            HabitName::Swimming => Some(UnitSystem::Minutes),
            HabitName::Yoga => Some(UnitSystem::Minutes),
            HabitName::Cooking => None,
            HabitName::Cleaning => None,
            HabitName::Gardening => None,
            HabitName::Socializing => None,
            HabitName::MartialArts => None,
            HabitName::LearningLanguage => None,
            HabitName::Investing => None,
            HabitName::SavingMoney => None,
            HabitName::OnlineCourse => None,
            HabitName::SleepTracking => Some(UnitSystem::Hours),
            HabitName::NoSmoking => None,
            HabitName::NoDrinking => None,
            HabitName::NoSugar => None,
            HabitName::NoFastFood => None,
            HabitName::Custom => None,
        }
    }

    /// The usual target value.
    pub open spec fn usual_target(self) -> u32 {
        match self {
            HabitName::Exercise => 30,
            HabitName::Meditation => 10,
            HabitName::Reading => 30,
            HabitName::Writing => 30,
            HabitName::Programming => 30,
            HabitName::Learning => 30,
            HabitName::Drawing => 30,
            HabitName::Music => 30,
            HabitName::Journaling => 1,
            HabitName::Walking => 10000,
            HabitName::Running => 10000,
            HabitName::Cycling => 5,
            HabitName::Swimming => 20,
            HabitName::Yoga => 20,
            HabitName::Cooking => 1,
            HabitName::Cleaning => 1,
            HabitName::Gardening => 1,
            HabitName::Socializing => 1,
            HabitName::MartialArts => 1,
            HabitName::LearningLanguage => 1,
            HabitName::Investing => 1,
            HabitName::SavingMoney => 1,
            HabitName::OnlineCourse => 1,
            HabitName::SleepTracking => 8,
            HabitName::NoSmoking => 0,
            HabitName::NoDrinking => 0,
            HabitName::NoSugar => 0,
            HabitName::NoFastFood => 0,
            HabitName::Custom => 1,
        }
    }

    /// How a recorded value is usually judged against the target.
    pub open spec fn usual_compare(self) -> Compare {
        match self {
            HabitName::Exercise => Compare::GreaterOrEqual,
            HabitName::Meditation => Compare::GreaterOrEqual,
            HabitName::Reading => Compare::GreaterOrEqual,
            HabitName::Writing => Compare::GreaterOrEqual,
            HabitName::Programming => Compare::GreaterOrEqual,
            HabitName::Learning => Compare::GreaterOrEqual,
            HabitName::Drawing => Compare::GreaterOrEqual,
            HabitName::Music => Compare::GreaterOrEqual,
            HabitName::Journaling => Compare::Equal,
            HabitName::Walking => Compare::GreaterOrEqual,
            HabitName::Running => Compare::GreaterOrEqual,
            HabitName::Cycling => Compare::GreaterOrEqual,
            HabitName::Swimming => Compare::GreaterOrEqual,
            HabitName::Yoga => Compare::GreaterOrEqual,
            HabitName::Cooking => Compare::Equal,
            HabitName::Cleaning => Compare::Equal,
            HabitName::Gardening => Compare::Equal,
            HabitName::Socializing => Compare::Equal,
            HabitName::MartialArts => Compare::Equal,
            HabitName::LearningLanguage => Compare::Equal,
            HabitName::Investing => Compare::Equal,
            HabitName::SavingMoney => Compare::Equal,
            HabitName::OnlineCourse => Compare::Equal,
            HabitName::SleepTracking => Compare::LessOrEqual,
            HabitName::NoSmoking => Compare::LessOrEqual,
            HabitName::NoDrinking => Compare::LessOrEqual,
            HabitName::NoSugar => Compare::LessOrEqual,
            HabitName::NoFastFood => Compare::Equal,
            HabitName::Custom => Compare::Equal,
        }
    }

    /// The catalogue entry of the habit. Its frequency is built by `Frequency::new` from the
    /// usual unit and target alone.
    pub fn info(&self) -> (r: HabitInfo)
        ensures
            r.name@ == self.title(),
            r.description@ == self.blurb(),
            r.is_suitable_for_minors == self.suits_minors(),
            r.icon is None,
            r.frequency.duration_kind == DurationKind::Daily,
            r.frequency.unit == match self.usual_unit() {
                Some(u) => u,
                None => UnitSystem::Count,
            },
            r.frequency.target_value == self.usual_target(),
            r.frequency.weekdays is None,
            r.frequency.comparator == Compare::GreaterOrEqual,
            r.compare == self.usual_compare(),
    {
        match self {
            HabitName::Exercise => HabitInfo {
                name: "Exercise".to_string(),
                description: "Perform any physical activity that gets your heart rate up.".to_string(),
                is_suitable_for_minors: true,
                icon: None,
                frequency: Frequency::new(None, Some(UnitSystem::Minutes), Some(30), None, None),
                compare: Compare::GreaterOrEqual,
            },
            HabitName::Meditation => HabitInfo {
                name: "Meditation".to_string(),
                description: "Practice mindfulness and meditation.".to_string(),
                is_suitable_for_minors: true,
                icon: None,
                frequency: Frequency::new(None, Some(UnitSystem::Minutes), Some(10), None, None),
                compare: Compare::GreaterOrEqual,
            },
            HabitName::Reading => HabitInfo {
                name: "Reading".to_string(),
                description: "Read any book or blog.".to_string(),
                is_suitable_for_minors: true,
                icon: None,
                frequency: Frequency::new(None, Some(UnitSystem::Minutes), Some(30), None, None),
                compare: Compare::GreaterOrEqual,
            },
            HabitName::Writing => HabitInfo {
                name: "Writing".to_string(),
                description: "Write a blog post, journal entry, or any other text.".to_string(),
                is_suitable_for_minors: true,
                icon: None,
                frequency: Frequency::new(None, Some(UnitSystem::Minutes), Some(30), None, None),
                compare: Compare::GreaterOrEqual,
            },
            HabitName::Programming => HabitInfo {
                name: "Programming".to_string(),
                description: "Write code for a project or learn a new programming language.".to_string(),
                is_suitable_for_minors: true,
                icon: None,
                frequency: Frequency::new(None, Some(UnitSystem::Minutes), Some(30), None, None),
                compare: Compare::GreaterOrEqual,
            },
            HabitName::Learning => HabitInfo {
                name: "Learning".to_string(),
                description: "Learn a new skill or study for a test.".to_string(),
                is_suitable_for_minors: true,
                icon: None,
                frequency: Frequency::new(None, Some(UnitSystem::Minutes), Some(30), None, None),
                compare: Compare::GreaterOrEqual,
            },
            HabitName::Drawing => HabitInfo {
                name: "Drawing".to_string(),
                description: "Draw a picture or sketch.".to_string(),
                is_suitable_for_minors: true,
                icon: None,
                frequency: Frequency::new(None, Some(UnitSystem::Minutes), Some(30), None, None),
                compare: Compare::GreaterOrEqual,
            },
            HabitName::Music => HabitInfo {
                name: "Music".to_string(),
                description: "Play an instrument or sing.".to_string(),
                is_suitable_for_minors: true,
                icon: None,
                frequency: Frequency::new(None, Some(UnitSystem::Minutes), Some(30), None, None),
                compare: Compare::GreaterOrEqual,
            },
            HabitName::Journaling => HabitInfo {
                name: "Journaling".to_string(),
                description: "Write a journal entry or diary.".to_string(),
                is_suitable_for_minors: true,
                icon: None,
                frequency: Frequency::new(None, None, Some(1), None, None),
                compare: Compare::Equal,
            },
            HabitName::Walking => HabitInfo {
                name: "Walking".to_string(),
                description: "Go for a walk.".to_string(),
                is_suitable_for_minors: true,
                icon: None,
                frequency: Frequency::new(None, Some(UnitSystem::Steps), Some(10000), None, None),
                compare: Compare::GreaterOrEqual,
            },
            HabitName::Running => HabitInfo {
                name: "Running".to_string(),
                description: "Go for a run or jog.".to_string(),
                is_suitable_for_minors: true,
                icon: None,
                frequency: Frequency::new(None, Some(UnitSystem::Steps), Some(10000), None, None),
                compare: Compare::GreaterOrEqual,
            },
            HabitName::Cycling => HabitInfo {
                name: "Cycling".to_string(),
                description: "Go for a bike ride.".to_string(),
                is_suitable_for_minors: true,
                icon: None,
                frequency: Frequency::new(None, Some(UnitSystem::Kilometers), Some(5), None, None),
                compare: Compare::GreaterOrEqual,
            },
            HabitName::Swimming => HabitInfo {
                name: "Swimming".to_string(),
                description: "Go for a swim.".to_string(),
                is_suitable_for_minors: true,
                icon: None,
                frequency: Frequency::new(None, Some(UnitSystem::Minutes), Some(20), None, None),
                compare: Compare::GreaterOrEqual,
            },
            HabitName::Yoga => HabitInfo {
                name: "Yoga".to_string(),
                description: "Practice yoga or stretching.".to_string(),
                is_suitable_for_minors: true,
                icon: None,
                frequency: Frequency::new(None, Some(UnitSystem::Minutes), Some(20), None, None),
                compare: Compare::GreaterOrEqual,
            },
            HabitName::Cooking => HabitInfo {
                name: "Cooking".to_string(),
                description: "Cook a meal or bake something.".to_string(),
                is_suitable_for_minors: true,
                icon: None,
                frequency: Frequency::new(None, None, Some(1), None, None),
                compare: Compare::Equal,
            },
            HabitName::Cleaning => HabitInfo {
                name: "Cleaning".to_string(),
                description: "Clean your home or workspace.".to_string(),
                is_suitable_for_minors: true,
                icon: None,
                frequency: Frequency::new(None, None, Some(1), None, None),
                compare: Compare::Equal,
            },
            HabitName::Gardening => HabitInfo {
                name: "Gardening".to_string(),
                description: "Plant or tend to a garden.".to_string(),
                is_suitable_for_minors: true,
                icon: None,
                frequency: Frequency::new(None, None, Some(1), None, None),
                compare: Compare::Equal,
            },
            HabitName::Socializing => HabitInfo {
                name: "Socializing".to_string(),
                description: "Spend time with friends or family.".to_string(),
                is_suitable_for_minors: true,
                icon: None,
                frequency: Frequency::new(None, None, Some(1), None, None),
                compare: Compare::Equal,
            },
            HabitName::MartialArts => HabitInfo {
                name: "Martial Arts".to_string(),
                description: "Practice martial arts or self-defense.".to_string(),
                is_suitable_for_minors: true,
                icon: None,
                frequency: Frequency::new(None, None, Some(1), None, None),
                compare: Compare::Equal,
            },
            HabitName::LearningLanguage => HabitInfo {
                name: "Learning a Language".to_string(),
                description: "Learn a new language or practice one you already know.".to_string(),
                is_suitable_for_minors: true,
                icon: None,
                frequency: Frequency::new(None, None, Some(1), None, None),
                compare: Compare::Equal,
            },
            HabitName::Investing => HabitInfo {
                name: "Investing".to_string(),
                description: "Invest in stocks, bonds, or cryptocurrency.".to_string(),
                is_suitable_for_minors: false,
                icon: None,
                frequency: Frequency::new(None, None, Some(1), None, None),
                compare: Compare::Equal,
            },
            HabitName::SavingMoney => HabitInfo {
                name: "Saving Money".to_string(),
                description: "Save money for a goal or retirement.".to_string(),
                is_suitable_for_minors: false,
                icon: None,
                frequency: Frequency::new(None, None, Some(1), None, None),
                compare: Compare::Equal,
            },
            HabitName::OnlineCourse => HabitInfo {
                name: "Online Course".to_string(),
                description: "Take an online course or class.".to_string(),
                is_suitable_for_minors: true,
                icon: None,
                frequency: Frequency::new(None, None, Some(1), None, None),
                compare: Compare::Equal,
            },
            HabitName::SleepTracking => HabitInfo {
                name: "Sleep Tracking".to_string(),
                description: "Track your sleep or take a nap.".to_string(),
                is_suitable_for_minors: true,
                icon: None,
                frequency: Frequency::new(None, Some(UnitSystem::Hours), Some(8), None, None),
                compare: Compare::LessOrEqual,
            },
            HabitName::NoSmoking => HabitInfo {
                name: "No Smoking".to_string(),
                description: "Don't smoke or use tobacco products.".to_string(),
                is_suitable_for_minors: false,
                icon: None,
                frequency: Frequency::new(None, None, Some(0), None, None),
                compare: Compare::LessOrEqual,
            },
            HabitName::NoDrinking => HabitInfo {
                name: "No Drinking".to_string(),
                description: "Don't drink alcohol or use drugs.".to_string(),
                is_suitable_for_minors: false,
                icon: None,
                frequency: Frequency::new(None, None, Some(0), None, None),
                compare: Compare::LessOrEqual,
            },
            HabitName::NoSugar => HabitInfo {
                name: "No Sugar".to_string(),
                description: "Don't eat any sugar or sweets.".to_string(),
                is_suitable_for_minors: true,
                icon: None,
                frequency: Frequency::new(None, None, Some(0), None, None),
                compare: Compare::LessOrEqual,
            },
            HabitName::NoFastFood => HabitInfo {
                name: "No Fast Food".to_string(),
                description: "Don't eat any fast food or junk food.".to_string(),
                is_suitable_for_minors: true,
                icon: None,
                frequency: Frequency::new(None, None, Some(0), None, None),
                compare: Compare::Equal,
            },
            HabitName::Custom => HabitInfo {
                name: "Custom".to_string(),
                description: "Create a custom habit.".to_string(),
                is_suitable_for_minors: true,
                icon: None,
                frequency: Frequency::new(None, None, Some(1), None, None),
                compare: Compare::Equal,
            },
        }
    }

    /// Every habit name, in declaration order.
    pub open spec fn all() -> Seq<HabitName> {
        seq![
            HabitName::Exercise,
            HabitName::Meditation,
            HabitName::Reading,
            HabitName::Writing,
            HabitName::Programming,
            HabitName::Learning,
            HabitName::Drawing,
            HabitName::Music,
            HabitName::Journaling,
            HabitName::Walking,
            HabitName::Running,
            HabitName::Cycling,
            HabitName::Swimming,
            HabitName::Yoga,
            HabitName::Cooking,
            HabitName::Cleaning,
            HabitName::Gardening,
            HabitName::Socializing,
            HabitName::MartialArts,
            HabitName::LearningLanguage,
            HabitName::Investing,
            HabitName::SavingMoney,
            HabitName::OnlineCourse,
            HabitName::SleepTracking,
            HabitName::NoSmoking,
            HabitName::NoDrinking,
            HabitName::NoSugar,
            HabitName::NoFastFood,
            HabitName::Custom,
        ]
    }

    /// Every habit name, in declaration order, each once.
    pub fn iter() -> (r: Vec<HabitName>)
        ensures
            r@ == HabitName::all(),
            forall|h: HabitName| r@.contains(h),
    {
        let r = vec![
            HabitName::Exercise,
            HabitName::Meditation,
            HabitName::Reading,
            HabitName::Writing,
            HabitName::Programming,
            HabitName::Learning,
            HabitName::Drawing,
            HabitName::Music,
            HabitName::Journaling,
            HabitName::Walking,
            HabitName::Running,
            HabitName::Cycling,
            HabitName::Swimming,
            HabitName::Yoga,
            HabitName::Cooking,
            HabitName::Cleaning,
            HabitName::Gardening,
            HabitName::Socializing,
            HabitName::MartialArts,
            HabitName::LearningLanguage,
            HabitName::Investing,
            HabitName::SavingMoney,
            HabitName::OnlineCourse,
            HabitName::SleepTracking,
            HabitName::NoSmoking,
            HabitName::NoDrinking,
            HabitName::NoSugar,
            HabitName::NoFastFood,
            HabitName::Custom,
        ];
        assert(r@ =~= HabitName::all());
        assert forall|h: HabitName| r@.contains(h) by {
            match h {
                HabitName::Exercise => assert(r@[0] == h),
                HabitName::Meditation => assert(r@[1] == h),
                HabitName::Reading => assert(r@[2] == h),
                HabitName::Writing => assert(r@[3] == h),
                HabitName::Programming => assert(r@[4] == h),
                HabitName::Learning => assert(r@[5] == h),
                HabitName::Drawing => assert(r@[6] == h),
                HabitName::Music => assert(r@[7] == h),
                HabitName::Journaling => assert(r@[8] == h),
                HabitName::Walking => assert(r@[9] == h),
                HabitName::Running => assert(r@[10] == h),
                HabitName::Cycling => assert(r@[11] == h),
                HabitName::Swimming => assert(r@[12] == h),
                HabitName::Yoga => assert(r@[13] == h),
                HabitName::Cooking => assert(r@[14] == h),
                HabitName::Cleaning => assert(r@[15] == h),
                HabitName::Gardening => assert(r@[16] == h),
                HabitName::Socializing => assert(r@[17] == h),
                HabitName::MartialArts => assert(r@[18] == h),
                HabitName::LearningLanguage => assert(r@[19] == h),
                HabitName::Investing => assert(r@[20] == h),
                HabitName::SavingMoney => assert(r@[21] == h),
                HabitName::OnlineCourse => assert(r@[22] == h),
                HabitName::SleepTracking => assert(r@[23] == h),
                HabitName::NoSmoking => assert(r@[24] == h),
                HabitName::NoDrinking => assert(r@[25] == h),
                HabitName::NoSugar => assert(r@[26] == h),
                HabitName::NoFastFood => assert(r@[27] == h),
                HabitName::Custom => assert(r@[28] == h),
            }
        }
        r
    }
}

/// Every canonical name reads back as the habit it names.
pub proof fn lemma_habit_name_text_round_trip(v: HabitName)
    ensures
        HabitName::from_text(v.text()) == Some(v),
{
    reveal_strlit("exercise");
    reveal_strlit("meditation");
    reveal_strlit("reading");
    reveal_strlit("writing");
    reveal_strlit("programming");
    reveal_strlit("learning");
    reveal_strlit("drawing");
    reveal_strlit("music");
    reveal_strlit("journaling");
    reveal_strlit("walking");
    reveal_strlit("running");
    reveal_strlit("cycling");
    reveal_strlit("swimming");
    reveal_strlit("yoga");
    reveal_strlit("cooking");
    reveal_strlit("cleaning");
    reveal_strlit("gardening");
    reveal_strlit("socializing");
    reveal_strlit("martial_arts");
    reveal_strlit("learning_language");
    reveal_strlit("investing");
    reveal_strlit("saving_money");
    reveal_strlit("online_course");
    reveal_strlit("sleep_tracking");
    reveal_strlit("no_smoking");
    reveal_strlit("no_drinking");
    reveal_strlit("no_sugar");
    reveal_strlit("no_fast_food");
    reveal_strlit("custom");
    assert(HabitName::Exercise.text().len() == 8 && HabitName::Exercise.text()[0] == 'e');
    assert(HabitName::Meditation.text().len() == 10 && HabitName::Meditation.text()[0] == 'm');
    assert(HabitName::Reading.text().len() == 7 && HabitName::Reading.text()[0] == 'r'
        && HabitName::Reading.text()[1] == 'e');
    assert(HabitName::Writing.text().len() == 7 && HabitName::Writing.text()[0] == 'w'
        && HabitName::Writing.text()[1] == 'r');
    assert(HabitName::Programming.text().len() == 11 && HabitName::Programming.text()[0] == 'p');
    assert(HabitName::Learning.text().len() == 8 && HabitName::Learning.text()[0] == 'l');
    assert(HabitName::Drawing.text().len() == 7 && HabitName::Drawing.text()[0] == 'd');
    assert(HabitName::Music.text().len() == 5);
    assert(HabitName::Journaling.text().len() == 10 && HabitName::Journaling.text()[0] == 'j');
    assert(HabitName::Walking.text().len() == 7 && HabitName::Walking.text()[0] == 'w'
        && HabitName::Walking.text()[1] == 'a');
    assert(HabitName::Running.text().len() == 7 && HabitName::Running.text()[0] == 'r'
        && HabitName::Running.text()[1] == 'u');
    assert(HabitName::Cycling.text().len() == 7 && HabitName::Cycling.text()[0] == 'c'
        && HabitName::Cycling.text()[1] == 'y');
    assert(HabitName::Swimming.text().len() == 8 && HabitName::Swimming.text()[0] == 's');
    assert(HabitName::Yoga.text().len() == 4);
    assert(HabitName::Cooking.text().len() == 7 && HabitName::Cooking.text()[0] == 'c'
        && HabitName::Cooking.text()[1] == 'o');
    assert(HabitName::Cleaning.text().len() == 8 && HabitName::Cleaning.text()[0] == 'c');
    assert(HabitName::Gardening.text().len() == 9 && HabitName::Gardening.text()[0] == 'g');
    assert(HabitName::Socializing.text().len() == 11 && HabitName::Socializing.text()[0] == 's');
    assert(HabitName::MartialArts.text().len() == 12 && HabitName::MartialArts.text()[0] == 'm');
    assert(HabitName::LearningLanguage.text().len() == 17);
    assert(HabitName::Investing.text().len() == 9 && HabitName::Investing.text()[0] == 'i');
    assert(HabitName::SavingMoney.text().len() == 12 && HabitName::SavingMoney.text()[0] == 's');
    assert(HabitName::OnlineCourse.text().len() == 13);
    assert(HabitName::SleepTracking.text().len() == 14);
    assert(HabitName::NoSmoking.text().len() == 10 && HabitName::NoSmoking.text()[0] == 'n');
    assert(HabitName::NoDrinking.text().len() == 11 && HabitName::NoDrinking.text()[0] == 'n');
    assert(HabitName::NoSugar.text().len() == 8 && HabitName::NoSugar.text()[0] == 'n');
    assert(HabitName::NoFastFood.text().len() == 12 && HabitName::NoFastFood.text()[0] == 'n');
    assert(HabitName::Custom.text().len() == 6);
}

/// Reading a canonical name, writing the value back out and reading that again gives what
/// the first reading gave.
pub proof fn lemma_habit_name_reparse(s: Seq<char>)
    requires
        HabitName::from_text(s) is Some,
    ensures
        HabitName::from_text(HabitName::from_text(s).unwrap().text()) == HabitName::from_text(s),
{
    lemma_habit_name_text_round_trip(HabitName::from_text(s).unwrap());
}

} // verus!
