use crate::habit_category::HabitCategory;
use crate::habit_name::HabitName;
use crate::list_index::{
    lemma_occurrences_positive, lemma_push_each_len, lemma_with_unique_contains,
    lemma_with_unique_idempotent, lemma_with_unique_no_duplicates, lemma_without_contains,
    lemma_without_no_duplicates, list_of, occurrences, push_each, with_unique, without,
    ListIndex, Tag,
};
use vstd::prelude::*;

verus! {

impl Tag for HabitName {
    fn same(&self, other: &Self) -> (r: bool) {
        *self == *other
    }
}

impl Tag for HabitCategory {
    fn same(&self, other: &Self) -> (r: bool) {
        *self == *other
    }
}

/// The categories in declaration order.
pub open spec fn all_categories() -> Seq<HabitCategory> {
    seq![
        HabitCategory::Body,
        HabitCategory::Mind,
        HabitCategory::Health,
        HabitCategory::Study,
        HabitCategory::Productivity,
        HabitCategory::Finance,
        HabitCategory::Social,
        HabitCategory::Abstraction,
        HabitCategory::Other,
    ]
}

/// The position of a category in declaration order.
pub open spec fn rank(c: HabitCategory) -> nat {
    match c {
        HabitCategory::Body => 0,
        HabitCategory::Mind => 1,
        HabitCategory::Health => 2,
        HabitCategory::Study => 3,
        HabitCategory::Productivity => 4,
        HabitCategory::Finance => 5,
        HabitCategory::Social => 6,
        HabitCategory::Abstraction => 7,
        HabitCategory::Other => 8,
    }
}

/// The habits that the built-in taxonomy files under a category, in order.
pub open spec fn seed_habits(c: HabitCategory) -> Seq<HabitName> {
    match c {
        HabitCategory::Body => seq![HabitName::Exercise, HabitName::Walking, HabitName::Running],
        HabitCategory::Mind => seq![HabitName::Meditation, HabitName::Reading],
        HabitCategory::Health => seq![
            HabitName::NoSmoking,
            HabitName::NoDrinking,
            HabitName::NoSugar,
            HabitName::NoFastFood,
        ],
        HabitCategory::Study => seq![
            HabitName::Learning,
            HabitName::OnlineCourse,
            HabitName::LearningLanguage,
        ],
        HabitCategory::Productivity => seq![HabitName::Programming, HabitName::Writing],
        HabitCategory::Finance => seq![HabitName::Investing, HabitName::SavingMoney],
        HabitCategory::Social => seq![HabitName::Socializing],
        HabitCategory::Abstraction => seq![
            HabitName::Drawing,
            HabitName::Music,
            HabitName::Journaling,
        ],
        HabitCategory::Other => seq![
            HabitName::Cooking,
            HabitName::Cleaning,
            HabitName::Gardening,
            HabitName::Swimming,
            HabitName::Yoga,
        ],
    }
}

/// The category that the built-in taxonomy files a habit under, if any.
pub open spec fn seed_category(h: HabitName) -> Option<HabitCategory> {
    match h {
        HabitName::Exercise | HabitName::Walking | HabitName::Running => Some(HabitCategory::Body),
        HabitName::Meditation | HabitName::Reading => Some(HabitCategory::Mind),
        HabitName::NoSmoking
        | HabitName::NoDrinking
        | HabitName::NoSugar
        | HabitName::NoFastFood => Some(HabitCategory::Health),
        HabitName::Learning
        | HabitName::OnlineCourse
        | HabitName::LearningLanguage => Some(HabitCategory::Study),
        HabitName::Programming | HabitName::Writing => Some(HabitCategory::Productivity),
        HabitName::Investing | HabitName::SavingMoney => Some(HabitCategory::Finance),
        HabitName::Socializing => Some(HabitCategory::Social),
        HabitName::Drawing | HabitName::Music | HabitName::Journaling => Some(
            HabitCategory::Abstraction,
        ),
        HabitName::Cooking
        | HabitName::Cleaning
        | HabitName::Gardening
        | HabitName::Swimming
        | HabitName::Yoga => Some(HabitCategory::Other),
        _ => None,
    }
}

/// The place of a habit within the list of its built-in category.
pub open spec fn seed_slot(h: HabitName) -> int {
    match h {
        HabitName::Exercise
        | HabitName::Meditation
        | HabitName::NoSmoking
        | HabitName::Learning
        | HabitName::Programming
        | HabitName::Investing
        | HabitName::Socializing
        | HabitName::Drawing
        | HabitName::Cooking => 0,
        HabitName::Walking
        | HabitName::Reading
        | HabitName::NoDrinking
        | HabitName::OnlineCourse
        | HabitName::Writing
        | HabitName::SavingMoney
        | HabitName::Music
        | HabitName::Cleaning => 1,
        HabitName::Running
        | HabitName::NoSugar
        | HabitName::LearningLanguage
        | HabitName::Journaling
        | HabitName::Gardening => 2,
        HabitName::NoFastFood
        | HabitName::Swimming => 3,
        HabitName::Yoga => 4,
        _ => 0,
    }
}

proof fn lemma_seed_consistent(c: HabitCategory, h: HabitName)
    ensures
        seed_habits(c).contains(h) == (seed_category(h) == Some(c)),
        seed_habits(c).no_duplicates(),
{
    let s = seed_habits(c);
    assert forall|i: int| 0 <= i < s.len() implies seed_category(#[trigger] s[i]) == Some(c)
        && seed_slot(s[i]) == i by {
        match c {
            HabitCategory::Body => {},
            HabitCategory::Mind => {},
            HabitCategory::Health => {},
            HabitCategory::Study => {},
            HabitCategory::Productivity => {},
            HabitCategory::Finance => {},
            HabitCategory::Social => {},
            HabitCategory::Abstraction => {},
            HabitCategory::Other => {},
        }
    }
    if seed_category(h) == Some(c) {
        assert(0 <= seed_slot(h) < s.len() && s[seed_slot(h)] == h);
    }
}

/// The habits that the built-in taxonomy files under `c`.
fn seed_habits_vec(c: HabitCategory) -> (r: Vec<HabitName>)
    ensures
        r@ == seed_habits(c),
{
    let r = match c {
        HabitCategory::Body => vec![HabitName::Exercise, HabitName::Walking, HabitName::Running],
        HabitCategory::Mind => vec![HabitName::Meditation, HabitName::Reading],
        HabitCategory::Health => vec![
            HabitName::NoSmoking,
            HabitName::NoDrinking,
            HabitName::NoSugar,
            HabitName::NoFastFood,
        ],
        HabitCategory::Study => vec![
            HabitName::Learning,
            HabitName::OnlineCourse,
            HabitName::LearningLanguage,
        ],
        HabitCategory::Productivity => vec![HabitName::Programming, HabitName::Writing],
        HabitCategory::Finance => vec![HabitName::Investing, HabitName::SavingMoney],
        HabitCategory::Social => vec![HabitName::Socializing],
        HabitCategory::Abstraction => vec![
            HabitName::Drawing,
            HabitName::Music,
            HabitName::Journaling,
        ],
        HabitCategory::Other => vec![
            HabitName::Cooking,
            HabitName::Cleaning,
            HabitName::Gardening,
            HabitName::Swimming,
            HabitName::Yoga,
        ],
    };
    assert(r@ =~= seed_habits(c));
    r
}

/// How many habits the built-in taxonomy files under the first `n` categories.
pub open spec fn seeded_count(n: nat) -> nat
    decreases n,
{
    if n == 0 {
        0
    } else {
        seeded_count((n - 1) as nat) + seed_habits(all_categories()[n - 1]).len()
    }
}

/// The categories ranked below `i` have their built-in lists, and no other category has one.
spec fn categories_seeded_below(reverse: Map<HabitCategory, Seq<HabitName>>, i: nat) -> bool {
    &&& forall|c: HabitCategory| #[trigger] reverse.contains_key(c) == (rank(c) < i)
    &&& forall|c: HabitCategory| rank(c) < i ==> #[trigger] reverse[c] == seed_habits(c)
}

/// Every habit with a list has the list of its one built-in category.
spec fn habit_lists_seeded(forward: Map<HabitName, Seq<HabitCategory>>) -> bool {
    forall|h: HabitName| #[trigger]
        forward.contains_key(h) ==> forward[h] == seq![seed_category(h).unwrap()]
}

/// Whether the taxonomy files `h` under a category ranked below `i`, or `h` is among `extra`.
spec fn filed(h: HabitName, i: nat, extra: Seq<HabitName>) -> bool {
    seed_category(h) is Some && (rank(seed_category(h).unwrap()) < i || extra.contains(h))
}

/// The two directions of the many-to-many relation between habits and categories.
pub struct HabitCategoryMap {
    pub categories_per_habit: ListIndex<HabitName, HabitCategory>,
    pub habits_per_category: ListIndex<HabitCategory, HabitName>,
}

impl HabitCategoryMap {
    pub open spec fn wf(&self) -> bool {
        self.categories_per_habit.wf() && self.habits_per_category.wf()
    }

    /// Every pairing filed in one direction is filed in the other.
    pub open spec fn symmetric(&self) -> bool {
        forall|h: HabitName, c: HabitCategory|
            #![trigger list_of(self.categories_per_habit@, h).contains(c)]
            #![trigger list_of(self.habits_per_category@, c).contains(h)]
            list_of(self.categories_per_habit@, h).contains(c) == list_of(
                self.habits_per_category@,
                c,
            ).contains(h)
    }

    /// No list holds a value twice.
    pub open spec fn no_repeats(&self) -> bool {
        &&& forall|h: HabitName| #[trigger] list_of(self.categories_per_habit@, h).no_duplicates()
        &&& forall|c: HabitCategory| #[trigger]
            list_of(self.habits_per_category@, c).no_duplicates()
    }

    /// An empty relation.
    pub fn new() -> (r: Self)
        ensures
            r.wf(),
            r.categories_per_habit@ == Map::<HabitName, Seq<HabitCategory>>::empty(),
            r.habits_per_category@ == Map::<HabitCategory, Seq<HabitName>>::empty(),
            r.symmetric(),
            r.no_repeats(),
    {
        let r = HabitCategoryMap {
            categories_per_habit: ListIndex::new(),
            habits_per_category: ListIndex::new(),
        };
        assert forall|h: HabitName| #[trigger]
            list_of(r.categories_per_habit@, h).no_duplicates() by {
            assert(list_of(r.categories_per_habit@, h) =~= Seq::<HabitCategory>::empty());
        }
        assert forall|c: HabitCategory| #[trigger]
            list_of(r.habits_per_category@, c).no_duplicates() by {
            assert(list_of(r.habits_per_category@, c) =~= Seq::<HabitName>::empty());
        }
        r
    }

    /// The built-in taxonomy: every category has a list (in the order of `seed_habits`), and
    /// each habit that the taxonomy files has a list of its one category.
    pub fn default() -> (r: Self)
        ensures
            r.wf(),
            forall|c: HabitCategory| #[trigger] r.habits_per_category@.contains_key(c),
            forall|c: HabitCategory| #[trigger] r.habits_per_category@[c] == seed_habits(c),
            forall|h: HabitName| #[trigger] r.categories_per_habit@.contains_key(h)
                == (seed_category(h) is Some),
            forall|h: HabitName| #[trigger]
                r.categories_per_habit@.contains_key(h) ==> r.categories_per_habit@[h]
                == seq![seed_category(h).unwrap()],
            r.habits_per_category@.dom().len() == 9,
            r.categories_per_habit@.dom().len() == 25,
            r.symmetric(),
            r.no_repeats(),
    {
        let mut map = HabitCategoryMap {
            categories_per_habit: ListIndex::new(),
            habits_per_category: ListIndex::new(),
        };
        let categories = vec![
            HabitCategory::Body,
            HabitCategory::Mind,
            HabitCategory::Health,
            HabitCategory::Study,
            HabitCategory::Productivity,
            HabitCategory::Finance,
            HabitCategory::Social,
            HabitCategory::Abstraction,
            HabitCategory::Other,
        ];
        assert(categories@ =~= all_categories());
        let ghost mut count: nat = 0;
        let mut i: usize = 0;
        while i < categories.len()
            invariant
                categories@ == all_categories(),
                i <= 9,
                map.wf(),
                categories_seeded_below(map.habits_per_category@, i as nat),
                forall|h: HabitName| #[trigger]
                    map.categories_per_habit@.contains_key(h) == filed(h, i as nat, seq![]),
                habit_lists_seeded(map.categories_per_habit@),
                map.habits_per_category@.dom().len() == i,
                map.categories_per_habit@.dom().len() == count,
                count == seeded_count(i as nat),
            decreases 9 - i,
        {
            let c = categories[i];
            assert(rank(c) == i);
            let group = seed_habits_vec(c);
            let mut k: usize = 0;
            while k < group.len()
                invariant
                    group@ == seed_habits(c),
                    rank(c) == i,
                    i < 9,
                    k <= group@.len(),
                    map.wf(),
                    categories_seeded_below(map.habits_per_category@, i as nat),
                    forall|h: HabitName| #[trigger]
                        map.categories_per_habit@.contains_key(h) == filed(
                            h,
                            i as nat,
                            group@.subrange(0, k as int),
                        ),
                    habit_lists_seeded(map.categories_per_habit@),
                    map.habits_per_category@.dom().len() == i,
                    map.categories_per_habit@.dom().len() == count + k,
                decreases group@.len() - k,
            {
                let h = group[k];
                let done = Ghost(group@.subrange(0, k as int));
                proof {
                    lemma_seed_consistent(c, h);
                    map.categories_per_habit.lemma_finite();
                    if done@.contains(h) {
                        let t = choose|t: int| 0 <= t < k && done@[t] == h;
                        assert(group@[t] == group@[k as int]);
                    }
                    assert(!map.categories_per_habit@.contains_key(h));
                }
                let one = vec![c];
                assert(one@ =~= seq![c]);
                map.categories_per_habit.insert(h, one);
                proof {
                    assert(group@.subrange(0, k + 1) =~= done@.push(h));
                    assert forall|h2: HabitName| #[trigger]
                        done@.push(h).contains(h2) == (done@.contains(h2) || h2 == h) by {
                        if done@.contains(h2) {
                            let t = choose|t: int| 0 <= t < done@.len() && done@[t] == h2;
                            assert(done@.push(h)[t] == h2);
                        }
                        if h2 == h {
                            assert(done@.push(h)[k as int] == h);
                        }
                        if done@.push(h).contains(h2) && h2 != h {
                            let t = choose|t: int|
                                0 <= t < done@.len() + 1 && done@.push(h)[t] == h2;
                            assert(done@[t] == h2);
                        }
                    }
                }
                k += 1;
            }
            proof {
                assert(group@.subrange(0, group@.len() as int) =~= group@);
                assert forall|h: HabitName| #[trigger]
                    map.categories_per_habit@.contains_key(h) == filed(h, (i + 1) as nat, seq![])
                    by {
                    lemma_seed_consistent(c, h);
                }
                map.habits_per_category.lemma_finite();
                assert(!map.habits_per_category@.contains_key(c));
                count = count + group@.len();
            }
            map.habits_per_category.insert(c, group);
            i += 1;
        }
        proof {
            reveal_with_fuel(seeded_count, 10);
            assert forall|h: HabitName, c: HabitCategory|
                #![trigger list_of(map.categories_per_habit@, h).contains(c)]
                #![trigger list_of(map.habits_per_category@, c).contains(h)]
                list_of(map.categories_per_habit@, h).contains(c) == list_of(
                    map.habits_per_category@,
                    c,
                ).contains(h) by {
                lemma_seed_consistent(c, h);
                if map.categories_per_habit@.contains_key(h) {
                    assert(map.categories_per_habit@[h][0] == seed_category(h).unwrap());
                }
            }
            assert forall|h: HabitName| #[trigger]
                list_of(map.categories_per_habit@, h).no_duplicates() by {
            }
            assert forall|c: HabitCategory| #[trigger]
                list_of(map.habits_per_category@, c).no_duplicates() by {
                lemma_seed_consistent(c, HabitName::Custom);
            }
        }
        map
    }

    /// Files `habit_category` under `habit_name` and `habit_name` under `habit_category`, each
    /// only where it is not filed already, creating lists where there are none.
    pub fn add(&mut self, habit_name: HabitName, habit_category: HabitCategory)
        requires
            old(self).wf(),
        ensures
            final(self).wf(),
            final(self).categories_per_habit@ == with_unique(
                old(self).categories_per_habit@,
                habit_name,
                habit_category,
            ),
            final(self).habits_per_category@ == with_unique(
                old(self).habits_per_category@,
                habit_category,
                habit_name,
            ),
            old(self).symmetric() ==> final(self).symmetric(),
            old(self).no_repeats() ==> final(self).no_repeats(),
    {
        self.categories_per_habit.push_unique(habit_name, habit_category);
        self.habits_per_category.push_unique(habit_category, habit_name);
        proof {
            let (f0, r0) = (old(self).categories_per_habit@, old(self).habits_per_category@);
            assert forall|h: HabitName, c: HabitCategory|
                #![trigger list_of(self.categories_per_habit@, h).contains(c)]
                #![trigger list_of(self.habits_per_category@, c).contains(h)]
                old(self).symmetric() implies list_of(self.categories_per_habit@, h).contains(c)
                == list_of(self.habits_per_category@, c).contains(h) by {
                lemma_with_unique_contains(f0, habit_name, habit_category, h, c);
                lemma_with_unique_contains(r0, habit_category, habit_name, c, h);
                assert(list_of(f0, h).contains(c) == list_of(r0, c).contains(h));
            }
            if old(self).no_repeats() {
                assert forall|h: HabitName| #[trigger]
                    list_of(self.categories_per_habit@, h).no_duplicates() by {
                    assert(list_of(f0, h).no_duplicates());
                    lemma_with_unique_no_duplicates(f0, habit_name, habit_category, h);
                }
                assert forall|c: HabitCategory| #[trigger]
                    list_of(self.habits_per_category@, c).no_duplicates() by {
                    assert(list_of(r0, c).no_duplicates());
                    lemma_with_unique_no_duplicates(r0, habit_category, habit_name, c);
                }
            }
        }
    }

    /// Replaces the list of `habit_name` by `habit_categories`, and appends `habit_name` to the
    /// list of each of them in turn. Lists of categories that the habit had before keep it,
    /// and a category list that held it already gets it once more.
    pub fn insert_habit_with_categories(
        &mut self,
        habit_name: HabitName,
        habit_categories: Vec<HabitCategory>,
    )
        requires
            old(self).wf(),
        ensures
            final(self).wf(),
            final(self).categories_per_habit@ == old(self).categories_per_habit@.insert(
                habit_name,
                habit_categories@,
            ),
            final(self).habits_per_category@ == push_each(
                old(self).habits_per_category@,
                habit_categories@,
                habit_name,
            ),
    {
        let mut i: usize = 0;
        while i < habit_categories.len()
            invariant
                i <= habit_categories@.len(),
                self.categories_per_habit == old(self).categories_per_habit,
                self.habits_per_category.wf(),
                self.habits_per_category@ == push_each(
                    old(self).habits_per_category@,
                    habit_categories@.subrange(0, i as int),
                    habit_name,
                ),
            decreases habit_categories@.len() - i,
        {
            proof {
                let done = habit_categories@.subrange(0, i as int);
                assert(habit_categories@.subrange(0, i + 1).drop_last() =~= done);
            }
            self.habits_per_category.push(habit_categories[i], habit_name);
            i += 1;
        }
        assert(habit_categories@.subrange(0, i as int) =~= habit_categories@);
        self.categories_per_habit.insert(habit_name, habit_categories);
    }

    /// Replaces the list of `habit_category` by `habit_names`, and appends `habit_category` to
    /// the list of each of them in turn: the mirror image of `insert_habit_with_categories`.
    pub fn insert_category_with_habits(
        &mut self,
        habit_category: HabitCategory,
        habit_names: Vec<HabitName>,
    )
        requires
            old(self).wf(),
        ensures
            final(self).wf(),
            final(self).habits_per_category@ == old(self).habits_per_category@.insert(
                habit_category,
                habit_names@,
            ),
            final(self).categories_per_habit@ == push_each(
                old(self).categories_per_habit@,
                habit_names@,
                habit_category,
            ),
    {
        let mut i: usize = 0;
        while i < habit_names.len()
            invariant
                i <= habit_names@.len(),
                self.habits_per_category == old(self).habits_per_category,
                self.categories_per_habit.wf(),
                self.categories_per_habit@ == push_each(
                    old(self).categories_per_habit@,
                    habit_names@.subrange(0, i as int),
                    habit_category,
                ),
            decreases habit_names@.len() - i,
        {
            proof {
                let done = habit_names@.subrange(0, i as int);
                assert(habit_names@.subrange(0, i + 1).drop_last() =~= done);
            }
            self.categories_per_habit.push(habit_names[i], habit_category);
            i += 1;
        }
        assert(habit_names@.subrange(0, i as int) =~= habit_names@);
        self.habits_per_category.insert(habit_category, habit_names);
    }

    /// Takes the pairing out of both directions; every other pairing stays, and a pairing
    /// that is not filed changes nothing.
    pub fn remove(&mut self, habit_name: &HabitName, habit_category: HabitCategory)
        requires
            old(self).wf(),
        ensures
            final(self).wf(),
            final(self).categories_per_habit@ == without(
                old(self).categories_per_habit@,
                *habit_name,
                habit_category,
            ),
            final(self).habits_per_category@ == without(
                old(self).habits_per_category@,
                habit_category,
                *habit_name,
            ),
            old(self).symmetric() ==> final(self).symmetric(),
            old(self).no_repeats() ==> final(self).no_repeats(),
    {
        self.categories_per_habit.remove_value(habit_name, &habit_category);
        self.habits_per_category.remove_value(&habit_category, habit_name);
        proof {
            let (f0, r0) = (old(self).categories_per_habit@, old(self).habits_per_category@);
            assert forall|h: HabitName, c: HabitCategory|
                #![trigger list_of(self.categories_per_habit@, h).contains(c)]
                #![trigger list_of(self.habits_per_category@, c).contains(h)]
                old(self).symmetric() implies list_of(self.categories_per_habit@, h).contains(c)
                == list_of(self.habits_per_category@, c).contains(h) by {
                lemma_without_contains(f0, *habit_name, habit_category, h, c);
                lemma_without_contains(r0, habit_category, *habit_name, c, h);
                assert(list_of(f0, h).contains(c) == list_of(r0, c).contains(h));
            }
            if old(self).no_repeats() {
                assert forall|h: HabitName| #[trigger]
                    list_of(self.categories_per_habit@, h).no_duplicates() by {
                    assert(list_of(f0, h).no_duplicates());
                    lemma_without_no_duplicates(f0, *habit_name, habit_category, h);
                }
                assert forall|c: HabitCategory| #[trigger]
                    list_of(self.habits_per_category@, c).no_duplicates() by {
                    assert(list_of(r0, c).no_duplicates());
                    lemma_without_no_duplicates(r0, habit_category, *habit_name, c);
                }
            }
        }
    }

    /// The categories filed under `habit_name`, if it has a list.
    pub fn get_categories(&self, habit_name: &HabitName) -> (r: Option<&Vec<HabitCategory>>)
        requires
            self.wf(),
        ensures
            match r {
                Some(l) => self.categories_per_habit@.contains_key(*habit_name) && l@
                    == self.categories_per_habit@[*habit_name],
                None => !self.categories_per_habit@.contains_key(*habit_name),
            },
    {
        self.categories_per_habit.get(habit_name)
    }

    /// The habits filed under `category`, if it has a list.
    pub fn get_habits(&self, category: &HabitCategory) -> (r: Option<&Vec<HabitName>>)
        requires
            self.wf(),
        ensures
            match r {
                Some(l) => self.habits_per_category@.contains_key(*category) && l@
                    == self.habits_per_category@[*category],
                None => !self.habits_per_category@.contains_key(*category),
            },
    {
        self.habits_per_category.get(category)
    }
}

impl Default for HabitCategoryMap {
    /// The built-in taxonomy.
    fn default() -> (r: Self)
        ensures
            r.wf(),
            r.symmetric(),
            r.no_repeats(),
            r.habits_per_category@.dom().len() == 9,
            r.categories_per_habit@.dom().len() == 25,
    {
        HabitCategoryMap::default()
    }
}

/// Adding a pairing twice files it once, in both directions: where the habit and the category
/// had no lists, each ends with a list of one.
pub proof fn lemma_add_twice_files_once(
    forward: Map<HabitName, Seq<HabitCategory>>,
    reverse: Map<HabitCategory, Seq<HabitName>>,
    h: HabitName,
    c: HabitCategory,
)
    ensures
        with_unique(with_unique(forward, h, c), h, c) == with_unique(forward, h, c),
        with_unique(with_unique(reverse, c, h), c, h) == with_unique(reverse, c, h),
        list_of(forward, h).len() == 0 ==> list_of(
            with_unique(with_unique(forward, h, c), h, c),
            h,
        ) == seq![c],
        list_of(reverse, c).len() == 0 ==> list_of(
            with_unique(with_unique(reverse, c, h), c, h),
            c,
        ) == seq![h],
{
    lemma_with_unique_idempotent(forward, h, c);
    lemma_with_unique_idempotent(reverse, c, h);
}

/// Inserting a habit with the same categories twice files the habit once more under each
/// of them in the reverse direction: the list of each category grows by the number of times
/// it is given, so it grows.
pub proof fn lemma_insert_twice_grows_reverse(
    reverse: Map<HabitCategory, Seq<HabitName>>,
    categories: Seq<HabitCategory>,
    h: HabitName,
    c: HabitCategory,
)
    requires
        categories.contains(c),
    ensures
        list_of(push_each(push_each(reverse, categories, h), categories, h), c).len() == list_of(
            push_each(reverse, categories, h),
            c,
        ).len() + occurrences(categories, c),
        list_of(push_each(push_each(reverse, categories, h), categories, h), c).len() > list_of(
            push_each(reverse, categories, h),
            c,
        ).len(),
{
    lemma_push_each_len(push_each(reverse, categories, h), categories, h, c);
    lemma_occurrences_positive(categories, c);
}

} // verus!
