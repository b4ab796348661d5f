//! Association maps backing the key-value store model.
//!
//! Each cache section that the key-value store exposes as a hash (field ->
//! value) or as a family of string keys is modelled by one of these maps:
//! a vector of entries with pairwise-distinct keys, viewed as a `Map`.

use vstd::prelude::*;

verus! {

/// Map view of an entry sequence with `i64` keys: later entries win.
pub open spec fn id_entries_view<T>(entries: Seq<(i64, T)>) -> Map<int, T>
    decreases entries.len(),
{
    if entries.len() == 0 {
        Map::empty()
    } else {
        id_entries_view(entries.drop_last()).insert(
            entries.last().0 as int,
            entries.last().1,
        )
    }
}

/// Map view of an entry sequence with string keys: later entries win.
pub open spec fn str_entries_view<T>(entries: Seq<(String, T)>) -> Map<Seq<char>, T>
    decreases entries.len(),
{
    if entries.len() == 0 {
        Map::empty()
    } else {
        str_entries_view(entries.drop_last()).insert(
            entries.last().0@,
            entries.last().1,
        )
    }
}

/// A key is in the view exactly when some entry carries it.
pub proof fn lemma_id_view_contains<T>(entries: Seq<(i64, T)>, k: int)
    ensures
        id_entries_view(entries).contains_key(k) <==> (exists|i: int|
            0 <= i < entries.len() && #[trigger] entries[i].0 as int == k),
    decreases entries.len(),
{
    if entries.len() > 0 {
        lemma_id_view_contains(entries.drop_last(), k);
        if entries.last().0 as int == k {
            assert(entries[entries.len() - 1].0 as int == k);
        } else if exists|i: int|
            0 <= i < entries.len() - 1 && #[trigger] entries.drop_last()[i].0 as int == k {
            let i = choose|i: int|
                0 <= i < entries.len() - 1 && #[trigger] entries.drop_last()[i].0 as int == k;
            assert(entries[i].0 as int == k);
        } else if exists|i: int| 0 <= i < entries.len() && #[trigger] entries[i].0 as int == k {
            let i = choose|i: int|
                0 <= i < entries.len() && #[trigger] entries[i].0 as int == k;
            assert(entries.drop_last()[i].0 as int == k);
        }
    }
}

/// With pairwise-distinct keys, each entry gives the value of its key.
pub proof fn lemma_id_view_lookup<T>(entries: Seq<(i64, T)>, i: int)
    requires
        0 <= i < entries.len(),
        forall|p: int, q: int|
            0 <= p < q < entries.len() ==> (#[trigger] entries[p]).0 != (#[trigger] entries[q]).0,
    ensures
        id_entries_view(entries).contains_key(entries[i].0 as int),
        id_entries_view(entries)[entries[i].0 as int] == entries[i].1,
    decreases entries.len(),
{
    lemma_id_view_contains(entries, entries[i].0 as int);
    if i < entries.len() - 1 {
        assert(entries.drop_last()[i] == entries[i]);
        lemma_id_view_lookup(entries.drop_last(), i);
        assert(entries[i].0 != entries.last().0);
    }
}

/// A key is in the view exactly when some entry carries it.
pub proof fn lemma_str_view_contains<T>(entries: Seq<(String, T)>, k: Seq<char>)
    ensures
        str_entries_view(entries).contains_key(k) <==> (exists|i: int|
            0 <= i < entries.len() && (#[trigger] entries[i]).0@ == k),
    decreases entries.len(),
{
    if entries.len() > 0 {
        lemma_str_view_contains(entries.drop_last(), k);
        if entries.last().0@ == k {
            assert(entries[entries.len() - 1].0@ == k);
        } else if exists|i: int|
            0 <= i < entries.len() - 1 && (#[trigger] entries.drop_last()[i]).0@ == k {
            let i = choose|i: int|
                0 <= i < entries.len() - 1 && (#[trigger] entries.drop_last()[i]).0@ == k;
            assert(entries[i].0@ == k);
        } else if exists|i: int| 0 <= i < entries.len() && (#[trigger] entries[i]).0@ == k {
            let i = choose|i: int| 0 <= i < entries.len() && (#[trigger] entries[i]).0@ == k;
            assert(entries.drop_last()[i].0@ == k);
        }
    }
}

/// With pairwise-distinct keys, each entry gives the value of its key.
pub proof fn lemma_str_view_lookup<T>(entries: Seq<(String, T)>, i: int)
    requires
        0 <= i < entries.len(),
        forall|p: int, q: int|
            0 <= p < q < entries.len() ==> (#[trigger] entries[p]).0@ != (#[trigger] entries[q]).0@,
    ensures
        str_entries_view(entries).contains_key(entries[i].0@),
        str_entries_view(entries)[entries[i].0@] == entries[i].1,
    decreases entries.len(),
{
    lemma_str_view_contains(entries, entries[i].0@);
    if i < entries.len() - 1 {
        assert(entries.drop_last()[i] == entries[i]);
        lemma_str_view_lookup(entries.drop_last(), i);
        assert(entries[i].0@ != entries.last().0@);
    }
}

/// Hash section keyed by numeric ids.
pub struct IdMap<T> {
    pub entries: Vec<(i64, T)>,
}

impl<T> View for IdMap<T> {
    type V = Map<int, T>;

    open spec fn view(&self) -> Map<int, T> {
        id_entries_view(self.entries@)
    }
}

impl<T> IdMap<T> {
    /// Keys are pairwise distinct, so the map view determines the entries.
    pub open spec fn wf(&self) -> bool {
        forall|p: int, q: int|
            0 <= p < q < self.entries@.len() ==> (#[trigger] self.entries@[p]).0 != (
            #[trigger] self.entries@[q]).0
    }

    pub fn new() -> (r: IdMap<T>)
        ensures
            r.wf(),
            r@ == Map::<int, T>::empty(),
    {
        IdMap { entries: Vec::new() }
    }

    /// Index of the entry that carries `key`, if any.
    fn find(&self, key: i64) -> (r: Option<usize>)
        requires
            self.wf(),
        ensures
            match r {
                Some(i) => i < self.entries@.len() && self.entries@[i as int].0 == key
                    && self@.contains_key(key as int)
                    && self@[key as int] == self.entries@[i as int].1,
                None => !self@.contains_key(key as int),
            },
    {
        let n = self.entries.len();
        let mut i: usize = 0;
        while i < n
            invariant
                n == self.entries@.len(),
                i <= n,
                forall|j: int| 0 <= j < i ==> (#[trigger] self.entries@[j]).0 != key,
                self.wf(),
            decreases n - i,
        {
            if self.entries[i].0 == key {
                proof {
                    lemma_id_view_lookup(self.entries@, i as int);
                }
                return Some(i);
            }
            i += 1;
        }
        proof {
            lemma_id_view_contains(self.entries@, key as int);
        }
        None
    }

    pub fn contains_key(&self, key: i64) -> (r: bool)
        requires
            self.wf(),
        ensures
            r == self@.contains_key(key as int),
    {
        self.find(key).is_some()
    }

    pub fn get(&self, key: i64) -> (r: Option<&T>)
        requires
            self.wf(),
        ensures
            match r {
                Some(v) => self@.contains_key(key as int) && *v == self@[key as int],
                None => !self@.contains_key(key as int),
            },
    {
        match self.find(key) {
            Some(i) => Some(&self.entries[i].1),
            None => None,
        }
    }

    pub fn insert(&mut self, key: i64, value: T)
        requires
            old(self).wf(),
        ensures
            final(self).wf(),
            final(self)@ == old(self)@.insert(key as int, value),
    {
        let ghost es0 = self.entries@;
        match self.find(key) {
            Some(i) => {
                let _ = self.entries.swap_remove(i);
                proof {
                    lemma_id_swap_remove_distinct(es0, i as int);
                }
                let ghost es1 = self.entries@;
                self.entries.push((key, value));
                proof {
                    assert(self.entries@.drop_last() =~= es1);
                    lemma_id_view_insert_equal(es0, es1, i as int, key, value, self.entries@);
                }
            },
            None => {
                self.entries.push((key, value));
                proof {
                    assert(self.entries@.drop_last() =~= es0);
                    lemma_id_view_contains(es0, key as int);
                }
            },
        }
    }

    pub fn remove(&mut self, key: i64)
        requires
            old(self).wf(),
        ensures
            final(self).wf(),
            final(self)@ == old(self)@.remove(key as int),
    {
        let ghost es0 = self.entries@;
        match self.find(key) {
            Some(i) => {
                let _ = self.entries.swap_remove(i);
                proof {
                    lemma_id_swap_remove_distinct(es0, i as int);
                    lemma_id_view_remove_equal(es0, i as int, key, self.entries@);
                }
            },
            None => {
                proof {
                    assert(old(self)@.remove(key as int) =~= old(self)@);
                }
            },
        }
    }

    /// Removes every id in `ids`; the count of removals that hit.
    pub fn remove_all(&mut self, ids: &Vec<i64>) -> (r: i64)
        requires
            old(self).wf(),
            ids@.len() <= i64::MAX,
        ensures
            final(self).wf(),
            final(self)@ == map_remove_ids(old(self)@, ids@),
            r == removed_count(old(self)@, ids@),
            0 <= r <= ids@.len(),
    {
        let n = ids.len();
        let mut i: usize = 0;
        let mut count: i64 = 0;
        while i < n
            invariant
                i <= n,
                n == ids@.len(),
                n <= i64::MAX,
                self.wf(),
                self@ == map_remove_ids(old(self)@, ids@.subrange(0, i as int)),
                count == removed_count(old(self)@, ids@.subrange(0, i as int)),
                0 <= count <= i,
            decreases n - i,
        {
            proof {
                assert(ids@.subrange(0, i + 1 as int).drop_last() =~= ids@.subrange(0, i as int));
            }
            let id = ids[i];
            if self.contains_key(id) {
                count = count + 1;
            }
            self.remove(id);
            i += 1;
        }
        proof {
            assert(ids@.subrange(0, n as int) =~= ids@);
        }
        count
    }

    pub fn clear(&mut self)
        ensures
            final(self).wf(),
            final(self)@ == Map::<int, T>::empty(),
    {
        self.entries.clear();
    }

    pub fn len(&self) -> (r: usize)
        ensures
            r == self.entries@.len(),
    {
        self.entries.len()
    }
}

/// Removing one entry by `swap_remove` keeps the remaining keys distinct.
proof fn lemma_id_swap_remove_distinct<T>(es: Seq<(i64, T)>, i: int)
    requires
        0 <= i < es.len(),
        forall|p: int, q: int|
            0 <= p < q < es.len() ==> (#[trigger] es[p]).0 != (#[trigger] es[q]).0,
    ensures
        forall|p: int, q: int|
            0 <= p < q < es.update(i, es.last()).drop_last().len() ==> (#[trigger] es.update(
                i,
                es.last(),
            ).drop_last()[p]).0 != (#[trigger] es.update(i, es.last()).drop_last()[q]).0,
{
    let es1 = es.update(i, es.last()).drop_last();
    assert forall|p: int, q: int| 0 <= p < q < es1.len() implies (#[trigger] es1[p]).0 != (
    #[trigger] es1[q]).0 by {
        assert(es1[p] == if p == i {
            es.last()
        } else {
            es[p]
        });
        assert(es1[q] == if q == i {
            es.last()
        } else {
            es[q]
        });
    }
}

/// After removing the entry of `key` and pushing `(key, value)`, the view
/// is the old view with `key` bound to `value`.
proof fn lemma_id_view_insert_equal<T>(
    es0: Seq<(i64, T)>,
    es1: Seq<(i64, T)>,
    i: int,
    key: i64,
    value: T,
    es2: Seq<(i64, T)>,
)
    requires
        0 <= i < es0.len(),
        es0[i].0 == key,
        forall|p: int, q: int|
            0 <= p < q < es0.len() ==> (#[trigger] es0[p]).0 != (#[trigger] es0[q]).0,
        es1 == es0.update(i, es0.last()).drop_last(),
        es2 == es1.push((key, value)),
    ensures
        id_entries_view(es2) == id_entries_view(es0).insert(key as int, value),
{
    lemma_id_swap_remove_distinct(es0, i);
    assert(es2.drop_last() =~= es1);
    assert(id_entries_view(es2) == id_entries_view(es1).insert(key as int, value));
    lemma_id_view_remove_equal(es0, i, key, es1);
    assert(id_entries_view(es0).remove(key as int).insert(key as int, value) =~= id_entries_view(
        es0,
    ).insert(key as int, value));
}

/// Removing the entry of `key` by `swap_remove` removes `key` from the view.
proof fn lemma_id_view_remove_equal<T>(es0: Seq<(i64, T)>, i: int, key: i64, es1: Seq<(i64, T)>)
    requires
        0 <= i < es0.len(),
        es0[i].0 == key,
        forall|p: int, q: int|
            0 <= p < q < es0.len() ==> (#[trigger] es0[p]).0 != (#[trigger] es0[q]).0,
        es1 == es0.update(i, es0.last()).drop_last(),
    ensures
        id_entries_view(es1) == id_entries_view(es0).remove(key as int),
{
    lemma_id_swap_remove_distinct(es0, i);
    let m1 = id_entries_view(es1);
    let m0 = id_entries_view(es0);
    assert forall|k: int| #[trigger] m1.contains_key(k) implies m0.remove(key as int).contains_key(
        k,
    ) && m1[k] == m0.remove(key as int)[k] by {
        lemma_id_view_contains(es1, k);
        let j = choose|j: int| 0 <= j < es1.len() && #[trigger] es1[j].0 as int == k;
        lemma_id_view_lookup(es1, j);
        let j0: int = if j == i {
            es0.len() - 1
        } else {
            j
        };
        assert(es0[j0] == es1[j]);
        lemma_id_view_lookup(es0, j0);
        assert(es0[j0].0 != es0[i].0 || j0 == i);
        assert(k != key as int);
    }
    assert forall|k: int| #[trigger] m0.remove(key as int).contains_key(k) implies m1.contains_key(
        k,
    ) by {
        lemma_id_view_contains(es0, k);
        let j = choose|j: int| 0 <= j < es0.len() && #[trigger] es0[j].0 as int == k;
        assert(j != i);
        let j1: int = if j == es0.len() - 1 {
            i
        } else {
            j
        };
        assert(es1[j1] == es0[j]);
        lemma_id_view_contains(es1, k);
    }
    assert forall|k: int| #[trigger] m1.dom().contains(k)
        <==> m0.remove(key as int).dom().contains(k) by {
        assert(m1.contains_key(k) ==> m0.remove(key as int).contains_key(k));
        assert(m0.remove(key as int).contains_key(k) ==> m1.contains_key(k));
    }
    assert forall|k: int| #[trigger] m1.dom().contains(k) implies m1[k] == m0.remove(
        key as int,
    )[k] by {
        assert(m1.contains_key(k));
    }
    assert(m1 =~= m0.remove(key as int));
}


/// The map after removing every id in `ids`.
pub open spec fn map_remove_ids<T>(m: Map<int, T>, ids: Seq<i64>) -> Map<int, T>
    decreases ids.len(),
{
    if ids.len() == 0 {
        m
    } else {
        map_remove_ids(m, ids.drop_last()).remove(ids.last() as int)
    }
}

/// How many of the removals in `ids` hit a present key.
pub open spec fn removed_count<T>(m: Map<int, T>, ids: Seq<i64>) -> int
    decreases ids.len(),
{
    if ids.len() == 0 {
        0int
    } else {
        removed_count(m, ids.drop_last()) + (if map_remove_ids(m, ids.drop_last()).contains_key(
            ids.last() as int,
        ) {
            1int
        } else {
            0int
        })
    }
}

/// Hash section keyed by strings.
pub struct StrMap<T> {
    pub entries: Vec<(String, T)>,
}

impl<T> View for StrMap<T> {
    type V = Map<Seq<char>, T>;

    open spec fn view(&self) -> Map<Seq<char>, T> {
        str_entries_view(self.entries@)
    }
}

impl<T> StrMap<T> {
    /// Keys are pairwise distinct, so the map view determines the entries.
    pub open spec fn wf(&self) -> bool {
        forall|p: int, q: int|
            0 <= p < q < self.entries@.len() ==> (#[trigger] self.entries@[p]).0@ != (
            #[trigger] self.entries@[q]).0@
    }

    pub fn new() -> (r: StrMap<T>)
        ensures
            r.wf(),
            r@ == Map::<Seq<char>, T>::empty(),
    {
        StrMap { entries: Vec::new() }
    }

    /// Index of the entry that carries `key`, if any.
    fn find(&self, key: &String) -> (r: Option<usize>)
        requires
            self.wf(),
        ensures
            match r {
                Some(i) => i < self.entries@.len() && self.entries@[i as int].0@ == key@
                    && self@.contains_key(key@)
                    && self@[key@] == self.entries@[i as int].1,
                None => !self@.contains_key(key@),
            },
    {
        let n = self.entries.len();
        let mut i: usize = 0;
        while i < n
            invariant
                n == self.entries@.len(),
                i <= n,
                forall|j: int| 0 <= j < i ==> (#[trigger] self.entries@[j]).0@ != key@,
                self.wf(),
            decreases n - i,
        {
            if self.entries[i].0 == *key {
                proof {
                    lemma_str_view_lookup(self.entries@, i as int);
                }
                return Some(i);
            }
            i += 1;
        }
        proof {
            lemma_str_view_contains(self.entries@, key@);
        }
        None
    }

    pub fn contains_key(&self, key: &String) -> (r: bool)
        requires
            self.wf(),
        ensures
            r == self@.contains_key(key@),
    {
        self.find(key).is_some()
    }

    pub fn get(&self, key: &String) -> (r: Option<&T>)
        requires
            self.wf(),
        ensures
            match r {
                Some(v) => self@.contains_key(key@) && *v == self@[key@],
                None => !self@.contains_key(key@),
            },
    {
        match self.find(key) {
            Some(i) => Some(&self.entries[i].1),
            None => None,
        }
    }

    pub fn insert(&mut self, key: String, value: T)
        requires
            old(self).wf(),
        ensures
            final(self).wf(),
            final(self)@ == old(self)@.insert(key@, value),
    {
        let ghost es0 = self.entries@;
        match self.find(&key) {
            Some(i) => {
                let _ = self.entries.swap_remove(i);
                proof {
                    lemma_str_swap_remove_distinct(es0, i as int);
                }
                let ghost es1 = self.entries@;
                let ghost kv = key@;
                self.entries.push((key, value));
                proof {
                    assert(self.entries@.drop_last() =~= es1);
                    lemma_str_view_insert_equal(es0, es1, i as int, kv, value, self.entries@);
                }
            },
            None => {
                self.entries.push((key, value));
                proof {
                    assert(self.entries@.drop_last() =~= es0);
                    lemma_str_view_contains(es0, self.entries@.last().0@);
                }
            },
        }
    }

    pub fn remove(&mut self, key: &String)
        requires
            old(self).wf(),
        ensures
            final(self).wf(),
            final(self)@ == old(self)@.remove(key@),
    {
        let ghost es0 = self.entries@;
        match self.find(key) {
            Some(i) => {
                let _ = self.entries.swap_remove(i);
                proof {
                    lemma_str_swap_remove_distinct(es0, i as int);
                    lemma_str_view_remove_equal(es0, i as int, key@, self.entries@);
                }
            },
            None => {
                proof {
                    assert(old(self)@.remove(key@) =~= old(self)@);
                }
            },
        }
    }

    pub fn clear(&mut self)
        ensures
            final(self).wf(),
            final(self)@ == Map::<Seq<char>, T>::empty(),
    {
        self.entries.clear();
    }

    pub fn len(&self) -> (r: usize)
        ensures
            r == self.entries@.len(),
    {
        self.entries.len()
    }
}

/// Removing one entry by `swap_remove` keeps the remaining keys distinct.
proof fn lemma_str_swap_remove_distinct<T>(es: Seq<(String, T)>, i: int)
    requires
        0 <= i < es.len(),
        forall|p: int, q: int|
            0 <= p < q < es.len() ==> (#[trigger] es[p]).0@ != (#[trigger] es[q]).0@,
    ensures
        forall|p: int, q: int|
            0 <= p < q < es.update(i, es.last()).drop_last().len() ==> (#[trigger] es.update(
                i,
                es.last(),
            ).drop_last()[p]).0@ != (#[trigger] es.update(i, es.last()).drop_last()[q]).0@,
{
    let es1 = es.update(i, es.last()).drop_last();
    assert forall|p: int, q: int| 0 <= p < q < es1.len() implies (#[trigger] es1[p]).0@ != (
    #[trigger] es1[q]).0@ by {
        assert(es1[p] == if p == i {
            es.last()
        } else {
            es[p]
        });
        assert(es1[q] == if q == i {
            es.last()
        } else {
            es[q]
        });
    }
}

/// After removing the entry of `key` and pushing `(key, value)`, the view
/// is the old view with `key` bound to `value`.
proof fn lemma_str_view_insert_equal<T>(
    es0: Seq<(String, T)>,
    es1: Seq<(String, T)>,
    i: int,
    key: Seq<char>,
    value: T,
    es2: Seq<(String, T)>,
)
    requires
        0 <= i < es0.len(),
        es0[i].0@ == key,
        forall|p: int, q: int|
            0 <= p < q < es0.len() ==> (#[trigger] es0[p]).0@ != (#[trigger] es0[q]).0@,
        es1 == es0.update(i, es0.last()).drop_last(),
        es2 == es1.push(es2.last()),
        es2.last().0@ == key,
        es2.last().1 == value,
    ensures
        str_entries_view(es2) == str_entries_view(es0).insert(key, value),
{
    lemma_str_swap_remove_distinct(es0, i);
    assert(es2.drop_last() =~= es1);
    assert(str_entries_view(es2) == str_entries_view(es1).insert(key, value));
    lemma_str_view_remove_equal(es0, i, key, es1);
    assert(str_entries_view(es0).remove(key).insert(key, value) =~= str_entries_view(es0).insert(
        key,
        value,
    ));
}

/// Removing the entry of `key` by `swap_remove` removes `key` from the view.
proof fn lemma_str_view_remove_equal<T>(
    es0: Seq<(String, T)>,
    i: int,
    key: Seq<char>,
    es1: Seq<(String, T)>,
)
    requires
        0 <= i < es0.len(),
        es0[i].0@ == key,
        forall|p: int, q: int|
            0 <= p < q < es0.len() ==> (#[trigger] es0[p]).0@ != (#[trigger] es0[q]).0@,
        es1 == es0.update(i, es0.last()).drop_last(),
    ensures
        str_entries_view(es1) == str_entries_view(es0).remove(key),
{
    lemma_str_swap_remove_distinct(es0, i);
    let m1 = str_entries_view(es1);
    let m0 = str_entries_view(es0);
    assert forall|k: Seq<char>| #[trigger] m1.contains_key(k) implies m0.remove(key).contains_key(
        k,
    ) && m1[k] == m0.remove(key)[k] by {
        lemma_str_view_contains(es1, k);
        let j = choose|j: int| 0 <= j < es1.len() && (#[trigger] es1[j]).0@ == k;
        lemma_str_view_lookup(es1, j);
        let j0: int = if j == i {
            es0.len() - 1
        } else {
            j
        };
        assert(es0[j0] == es1[j]);
        lemma_str_view_lookup(es0, j0);
        assert(es0[j0].0@ != es0[i].0@ || j0 == i);
        assert(k != key);
    }
    assert forall|k: Seq<char>| #[trigger] m0.remove(key).contains_key(k) implies m1.contains_key(
        k,
    ) by {
        lemma_str_view_contains(es0, k);
        let j = choose|j: int| 0 <= j < es0.len() && (#[trigger] es0[j]).0@ == k;
        assert(j != i);
        let j1: int = if j == es0.len() - 1 {
            i
        } else {
            j
        };
        assert(es1[j1] == es0[j]);
        lemma_str_view_contains(es1, k);
    }
    assert forall|k: Seq<char>| #[trigger] m1.dom().contains(k) <==> m0.remove(key).dom().contains(
        k,
    ) by {
        assert(m1.contains_key(k) ==> m0.remove(key).contains_key(k));
        assert(m0.remove(key).contains_key(k) ==> m1.contains_key(k));
    }
    assert forall|k: Seq<char>| #[trigger] m1.dom().contains(k) implies m1[k] == m0.remove(
        key,
    )[k] by {
        assert(m1.contains_key(k));
    }
    assert(m1 =~= m0.remove(key));
}

} // verus!
