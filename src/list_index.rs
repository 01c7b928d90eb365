use vstd::prelude::*;

verus! {

/// A closed vocabulary whose values can be told apart at run time.
pub trait Tag: Copy + Sized {
    fn same(&self, other: &Self) -> (r: bool)
        ensures
            r == (*self == *other),
    ;
}

/// The list that `m` holds under `k`, empty where it holds none.
pub open spec fn list_of<K, V>(m: Map<K, Seq<V>>, k: K) -> Seq<V> {
    if m.contains_key(k) {
        m[k]
    } else {
        Seq::empty()
    }
}

/// `m` after `v` is appended to the list under `k`, unless that list holds it already.
pub open spec fn with_unique<K, V>(m: Map<K, Seq<V>>, k: K, v: V) -> Map<K, Seq<V>> {
    if list_of(m, k).contains(v) {
        m.insert(k, list_of(m, k))
    } else {
        m.insert(k, list_of(m, k).push(v))
    }
}

/// `m` after `v` is appended to the list under each of `keys` in turn.
pub open spec fn push_each<K, V>(m: Map<K, Seq<V>>, keys: Seq<K>, v: V) -> Map<K, Seq<V>>
    decreases keys.len(),
{
    if keys.len() == 0 {
        m
    } else {
        let before = push_each(m, keys.drop_last(), v);
        before.insert(keys.last(), list_of(before, keys.last()).push(v))
    }
}

/// `m` after every `v` is taken out of the list under `k`, where there is one.
pub open spec fn without<K, V>(m: Map<K, Seq<V>>, k: K, v: V) -> Map<K, Seq<V>> {
    if m.contains_key(k) {
        m.insert(k, m[k].filter(|x: V| x != v))
    } else {
        m
    }
}

/// The map that entries with the given keys and lists make.
pub open spec fn map_of<K, V>(e: Seq<(K, Vec<V>)>) -> Map<K, Seq<V>>
    decreases e.len(),
{
    if e.len() == 0 {
        Map::empty()
    } else {
        map_of(e.drop_last()).insert(e.last().0, e.last().1@)
    }
}

pub open spec fn keys_unique<K, V>(e: Seq<(K, Vec<V>)>) -> bool {
    forall|i: int, j: int| 0 <= i < j < e.len() ==> e[i].0 != e[j].0
}

proof fn lemma_map_of_absent<K, V>(e: Seq<(K, Vec<V>)>, k: K)
    requires
        forall|i: int| 0 <= i < e.len() ==> e[i].0 != k,
    ensures
        !map_of(e).contains_key(k),
    decreases e.len(),
{
    if e.len() > 0 {
        lemma_map_of_absent(e.drop_last(), k);
    }
}

proof fn lemma_map_of_at<K, V>(e: Seq<(K, Vec<V>)>, i: int)
    requires
        keys_unique(e),
        0 <= i < e.len(),
    ensures
        map_of(e).contains_key(e[i].0),
        map_of(e)[e[i].0] == e[i].1@,
    decreases e.len(),
{
    if i < e.len() - 1 {
        lemma_map_of_at(e.drop_last(), i);
    }
}

proof fn lemma_map_of_update<K, V>(e: Seq<(K, Vec<V>)>, i: int, l: Vec<V>)
    requires
        keys_unique(e),
        0 <= i < e.len(),
    ensures
        keys_unique(e.update(i, (e[i].0, l))),
        map_of(e.update(i, (e[i].0, l))) == map_of(e).insert(e[i].0, l@),
    decreases e.len(),
{
    let u = e.update(i, (e[i].0, l));
    if i == e.len() - 1 {
        assert(u.drop_last() =~= e.drop_last());
        assert(map_of(u) =~= map_of(e).insert(e[i].0, l@));
    } else {
        lemma_map_of_update(e.drop_last(), i, l);
        assert(u.drop_last() =~= e.drop_last().update(i, (e[i].0, l)));
        assert(map_of(u) =~= map_of(e).insert(e[i].0, l@));
    }
}

proof fn lemma_map_of_len<K, V>(e: Seq<(K, Vec<V>)>)
    requires
        keys_unique(e),
    ensures
        map_of(e).dom().finite(),
        map_of(e).dom().len() == e.len(),
    decreases e.len(),
{
    if e.len() > 0 {
        let d = e.drop_last();
        lemma_map_of_len(d);
        lemma_map_of_absent(d, e.last().0);
    }
}

/// Lists filed under keys, with each key at most once, kept in the order the keys came.
pub struct ListIndex<K, V> {
    entries: Vec<(K, Vec<V>)>,
}

impl<K: Tag, V: Tag> ListIndex<K, V> {
    pub closed spec fn view(&self) -> Map<K, Seq<V>> {
        map_of(self.entries@)
    }

    pub closed spec fn wf(&self) -> bool {
        keys_unique(self.entries@)
    }

    /// A well-formed index has finitely many keys.
    pub proof fn lemma_finite(&self)
        requires
            self.wf(),
        ensures
            self@.dom().finite(),
    {
        lemma_map_of_len(self.entries@);
    }

    pub fn new() -> (r: Self)
        ensures
            r.wf(),
            r@ == Map::<K, Seq<V>>::empty(),
    {
        ListIndex { entries: Vec::new() }
    }

    /// Where the entry of `k` stands, if there is one.
    fn find(&self, k: &K) -> (r: Option<usize>)
        requires
            self.wf(),
        ensures
            match r {
                Some(i) => i < self.entries@.len() && self.entries@[i as int].0 == *k,
                None => forall|i: int| 0 <= i < self.entries@.len() ==> self.entries@[i].0 != *k,
            },
    {
        let mut i: usize = 0;
        while i < self.entries.len()
            invariant
                i <= self.entries@.len(),
                forall|j: int| 0 <= j < i ==> self.entries@[j].0 != *k,
            decreases self.entries@.len() - i,
        {
            if self.entries[i].0.same(k) {
                return Some(i);
            }
            i += 1;
        }
        None
    }

    /// How many keys have an entry.
    pub fn len(&self) -> (r: usize)
        requires
            self.wf(),
        ensures
            self@.dom().finite(),
            r == self@.dom().len(),
    {
        proof {
            lemma_map_of_len(self.entries@);
        }
        self.entries.len()
    }

    pub fn is_empty(&self) -> (r: bool)
        requires
            self.wf(),
        ensures
            r == (self@.dom().len() == 0),
    {
        self.len() == 0
    }

    /// The list under `k`, if `k` has an entry.
    pub fn get(&self, k: &K) -> (r: Option<&Vec<V>>)
        requires
            self.wf(),
        ensures
            match r {
                Some(l) => self@.contains_key(*k) && l@ == self@[*k],
                None => !self@.contains_key(*k),
            },
    {
        match self.find(k) {
            Some(i) => {
                proof {
                    lemma_map_of_at(self.entries@, i as int);
                }
                Some(&self.entries[i].1)
            },
            None => {
                proof {
                    lemma_map_of_absent(self.entries@, *k);
                }
                None
            },
        }
    }

    /// Files `l` under `k`, in place of any list that was there.
    pub fn insert(&mut self, k: K, l: Vec<V>)
        requires
            old(self).wf(),
        ensures
            final(self).wf(),
            final(self)@ == old(self)@.insert(k, l@),
    {
        match self.find(&k) {
            Some(i) => {
                proof {
                    lemma_map_of_update(self.entries@, i as int, l);
                }
                let ghost before = self.entries@;
                let _ = self.entries.remove(i);
                self.entries.insert(i, (k, l));
                assert(self.entries@ =~= before.update(i as int, (k, l)));
            },
            None => {
                let ghost before = self.entries@;
                self.entries.push((k, l));
                assert(self.entries@.drop_last() =~= before);
            },
        }
    }

    /// Takes the list under `k` out of its entry, leaving an empty one there (and creating the
    /// entry where there was none); returns the position of the entry and the list.
    fn take_list(&mut self, k: K) -> (r: (usize, Vec<V>))
        requires
            old(self).wf(),
        ensures
            final(self).wf(),
            r.0 < final(self).entries@.len(),
            final(self).entries@[r.0 as int].0 == k,
            r.1@ == list_of(old(self)@, k),
            final(self)@ == old(self)@.insert(k, final(self).entries@[r.0 as int].1@),
    {
        match self.find(&k) {
            Some(i) => {
                proof {
                    lemma_map_of_at(self.entries@, i as int);
                }
                let ghost before = self.entries@;
                let (key, l) = self.entries.remove(i);
                self.entries.insert(i, (key, Vec::new()));
                proof {
                    let placed = self.entries@[i as int];
                    assert(self.entries@ =~= before.update(i as int, (k, placed.1)));
                    lemma_map_of_update(before, i as int, placed.1);
                }
                (i, l)
            },
            None => {
                let ghost before = self.entries@;
                self.entries.push((k, Vec::new()));
                assert(self.entries@.drop_last() =~= before);
                proof {
                    lemma_map_of_absent(before, k);
                }
                (self.entries.len() - 1, Vec::new())
            },
        }
    }

    fn put_list(&mut self, i: usize, l: Vec<V>)
        requires
            old(self).wf(),
            i < old(self).entries@.len(),
        ensures
            final(self).wf(),
            final(self)@ == old(self)@.insert(old(self).entries@[i as int].0, l@),
    {
        proof {
            lemma_map_of_update(self.entries@, i as int, l);
        }
        let ghost before = self.entries@;
        let (k, _) = self.entries.remove(i);
        self.entries.insert(i, (k, l));
        assert(self.entries@ =~= before.update(i as int, (k, l)));
    }

    /// Appends `v` to the list under `k`, creating the entry where there is none.
    pub fn push(&mut self, k: K, v: V)
        requires
            old(self).wf(),
        ensures
            final(self).wf(),
            final(self)@ == old(self)@.insert(k, list_of(old(self)@, k).push(v)),
    {
        let (i, mut l) = self.take_list(k);
        l.push(v);
        self.put_list(i, l);
    }

    /// Appends `v` to the list under `k`, creating the entry where there is none, unless the
    /// list holds `v` already.
    pub fn push_unique(&mut self, k: K, v: V)
        requires
            old(self).wf(),
        ensures
            final(self).wf(),
            final(self)@ == with_unique(old(self)@, k, v),
    {
        let (i, mut l) = self.take_list(k);
        let mut j: usize = 0;
        let mut found = false;
        while j < l.len()
            invariant
                j <= l@.len(),
                found == (exists|t: int| 0 <= t < j && l@[t] == v),
            decreases l@.len() - j,
        {
            if l[j].same(&v) {
                found = true;
            }
            j += 1;
        }
        if !found {
            l.push(v);
        }
        self.put_list(i, l);
    }

    /// Takes every `v` out of the list under `k`; nothing changes where `k` has no entry.
    pub fn remove_value(&mut self, k: &K, v: &V)
        requires
            old(self).wf(),
        ensures
            final(self).wf(),
            final(self)@ == without(old(self)@, *k, *v),
    {
        match self.find(k) {
            Some(i) => {
                proof {
                    lemma_map_of_at(self.entries@, i as int);
                }
                let l = &self.entries[i].1;
                let mut kept: Vec<V> = Vec::new();
                let mut j: usize = 0;
                while j < l.len()
                    invariant
                        j <= l@.len(),
                        kept@ == l@.subrange(0, j as int).filter(|x: V| x != *v),
                    decreases l@.len() - j,
                {
                    proof {
                        let done = l@.subrange(0, j as int);
                        assert(l@.subrange(0, j + 1) =~= done.push(l@[j as int]));
                        l@.subrange(0, j as int).lemma_filter_push(l@[j as int], |x: V| x != *v);
                    }
                    if !l[j].same(v) {
                        kept.push(l[j]);
                    }
                    j += 1;
                }
                assert(l@.subrange(0, l@.len() as int) =~= l@);
                self.put_list(i, kept);
            },
            None => {
                proof {
                    lemma_map_of_absent(self.entries@, *k);
                }
            },
        }
    }
}

/// The list under `k` after `with_unique` holds what it held, and `v`.
pub proof fn lemma_with_unique_contains<K, V>(m: Map<K, Seq<V>>, k: K, v: V, k2: K, v2: V)
    ensures
        list_of(with_unique(m, k, v), k2).contains(v2) == (list_of(m, k2).contains(v2) || (k2
            == k && v2 == v)),
{
    if k2 == k && list_of(m, k).contains(v) == false {
        let l = list_of(m, k);
        assert(l.push(v)[l.len() as int] == v);
        if l.contains(v2) {
            let t = choose|t: int| 0 <= t < l.len() && l[t] == v2;
            assert(l.push(v)[t] == v2);
        }
        if l.push(v).contains(v2) && v2 != v {
            let t = choose|t: int| 0 <= t < l.len() + 1 && l.push(v)[t] == v2;
            assert(l[t] == v2);
        }
    }
}

/// `with_unique` keeps every list free of repeats.
pub proof fn lemma_with_unique_no_duplicates<K, V>(m: Map<K, Seq<V>>, k: K, v: V, k2: K)
    requires
        list_of(m, k2).no_duplicates(),
    ensures
        list_of(with_unique(m, k, v), k2).no_duplicates(),
{
    if k2 == k && !list_of(m, k).contains(v) {
        let l = list_of(m, k);
        assert forall|i: int, j: int| 0 <= i < j < l.push(v).len() implies l.push(v)[i] != l.push(
            v,
        )[j] by {
            if j == l.len() {
                assert(l[i] == l.push(v)[i]);
            }
        }
    }
}

/// Doing `with_unique` twice with the same arguments is doing it once.
pub proof fn lemma_with_unique_idempotent<K, V>(m: Map<K, Seq<V>>, k: K, v: V)
    ensures
        with_unique(with_unique(m, k, v), k, v) == with_unique(m, k, v),
        list_of(m, k).len() == 0 ==> list_of(with_unique(m, k, v), k) == seq![v],
{
    let once = with_unique(m, k, v);
    let l = list_of(m, k);
    if !l.contains(v) {
        assert(l.push(v)[l.len() as int] == v);
    }
    assert(list_of(once, k).contains(v));
    assert(with_unique(once, k, v) =~= once);
    if l.len() == 0 {
        assert(l.push(v) =~= seq![v]);
    }
}

/// The list under `k` after `without` holds what it held, but `v`.
pub proof fn lemma_without_contains<K, V>(m: Map<K, Seq<V>>, k: K, v: V, k2: K, v2: V)
    ensures
        list_of(without(m, k, v), k2).contains(v2) == (list_of(m, k2).contains(v2) && !(k2 == k
            && v2 == v)),
{
    broadcast use vstd::seq_lib::group_filter_ensures;

    if k2 == k && m.contains_key(k) {
        let l = m[k];
        let p = |x: V| x != v;
        if l.contains(v2) && v2 != v {
            let t = choose|t: int| 0 <= t < l.len() && l[t] == v2;
            l.lemma_filter_contains(p, t);
        }
        if l.filter(p).contains(v2) {
            l.lemma_filter_contains_rev(p, v2);
        }
    }
}

proof fn lemma_filter_no_duplicates<V>(l: Seq<V>, v: V)
    requires
        l.no_duplicates(),
    ensures
        l.filter(|x: V| x != v).no_duplicates(),
    decreases l.len(),
{
    broadcast use vstd::seq_lib::group_filter_ensures;

    let p = |x: V| x != v;
    if l.len() > 0 {
        let d = l.drop_last();
        assert(d.no_duplicates());
        lemma_filter_no_duplicates(d, v);
        d.lemma_filter_push(l.last(), p);
        assert(l =~= d.push(l.last()));
        if p(l.last()) {
            let f = d.filter(p);
            assert(!f.contains(l.last())) by {
                if f.contains(l.last()) {
                    d.lemma_filter_contains_rev(p, l.last());
                }
            }
            assert forall|i: int, j: int| 0 <= i < j < f.push(l.last()).len() implies f.push(
                l.last(),
            )[i] != f.push(l.last())[j] by {
                if j == f.len() {
                    assert(f[i] == f.push(l.last())[i]);
                }
            }
        }
    }
}

/// `without` keeps every list free of repeats.
pub proof fn lemma_without_no_duplicates<K, V>(m: Map<K, Seq<V>>, k: K, v: V, k2: K)
    requires
        list_of(m, k2).no_duplicates(),
    ensures
        list_of(without(m, k, v), k2).no_duplicates(),
{
    if k2 == k && m.contains_key(k) {
        lemma_filter_no_duplicates(m[k], v);
    }
}

/// How often `k` occurs in `keys`.
pub open spec fn occurrences<K>(keys: Seq<K>, k: K) -> nat {
    keys.filter(|x: K| x == k).len()
}

/// `push_each` lengthens the list under `k` by one for each time `k` occurs among the keys.
pub proof fn lemma_push_each_len<K, V>(m: Map<K, Seq<V>>, keys: Seq<K>, v: V, k: K)
    ensures
        list_of(push_each(m, keys, v), k).len() == list_of(m, k).len() + occurrences(keys, k),
    decreases keys.len(),
{
    if keys.len() > 0 {
        let d = keys.drop_last();
        lemma_push_each_len(m, d, v, k);
        d.lemma_filter_push(keys.last(), |x: K| x == k);
        assert(keys =~= d.push(keys.last()));
    }
}

/// A key that occurs among `keys` occurs at least once.
pub proof fn lemma_occurrences_positive<K>(keys: Seq<K>, k: K)
    requires
        keys.contains(k),
    ensures
        occurrences(keys, k) > 0,
{
    broadcast use vstd::seq_lib::group_filter_ensures;

    let t = choose|t: int| 0 <= t < keys.len() && keys[t] == k;
    keys.lemma_filter_contains(|x: K| x == k, t);
}

} // verus!
