//! Name-keyed tables of per-stream state.
//!
//! Both the measurement registry and the three-phase rollup state map a name
//! to some mutable statistics value.  The table is an association list with
//! unique keys, kept in first-seen order; entries are created lazily and
//! never removed.

use std::ops::Index;
use vstd::prelude::*;

verus! {

/// Whether some entry of the table model carries key `k`.
pub open spec fn table_contains<V>(m: Seq<(Seq<char>, V)>, k: Seq<char>) -> bool {
    exists|i: int| 0 <= i < m.len() && (#[trigger] m[i]).0 == k
}

/// All keys of the table model are distinct.
pub open spec fn table_unique_keys<V>(m: Seq<(Seq<char>, V)>) -> bool {
    forall|i: int, j: int|
        0 <= i < j < m.len() ==> (#[trigger] m[i]).0 != (#[trigger] m[j]).0
}

/// The value stored under key `k` (the first one, though keys are unique
/// wherever this is used).
pub open spec fn table_get<V>(m: Seq<(Seq<char>, V)>, k: Seq<char>) -> V
    recommends
        table_contains(m, k),
    decreases m.len(),
{
    if m.len() == 0 {
        arbitrary()
    } else if m.first().0 == k {
        m.first().1
    } else {
        table_get(m.drop_first(), k)
    }
}

/// With unique keys, `table_get` returns the value beside any index whose
/// key matches.
pub proof fn lemma_table_get_index<V>(m: Seq<(Seq<char>, V)>, k: Seq<char>, i: int)
    requires
        table_unique_keys(m),
        0 <= i < m.len(),
        m[i].0 == k,
    ensures
        table_get(m, k) == m[i].1,
    decreases m.len(),
{
    assert(m.first() == m[0]);
    if i > 0 {
        assert(m[0].0 != k);
        assert(forall|j: int|
            0 <= j < m.drop_first().len() ==> #[trigger] m.drop_first()[j] == m[j + 1]);
        lemma_table_get_index(m.drop_first(), k, i - 1);
    }
}

/// Updating the value stored under `k`: if `k` is present its value `v`
/// becomes `f(v)`; otherwise a new entry `(k, f(fresh))` is appended.
pub open spec fn table_upsert<V>(
    m: Seq<(Seq<char>, V)>,
    k: Seq<char>,
    fresh: V,
    f: spec_fn(V) -> V,
) -> Seq<(Seq<char>, V)>
    decreases m.len(),
{
    if m.len() == 0 {
        seq![(k, f(fresh))]
    } else if m.first().0 == k {
        seq![(k, f(m.first().1))] + m.drop_first()
    } else {
        seq![m.first()] + table_upsert(m.drop_first(), k, fresh, f)
    }
}

/// Lazy creation: upserting an unseen key appends exactly one new entry,
/// initialized from `fresh`, and leaves every existing entry unchanged.
pub proof fn lemma_table_upsert_new<V>(
    m: Seq<(Seq<char>, V)>,
    k: Seq<char>,
    fresh: V,
    f: spec_fn(V) -> V,
)
    requires
        !table_contains(m, k),
    ensures
        table_upsert(m, k, fresh, f) == m.push((k, f(fresh))),
    decreases m.len(),
{
    if m.len() == 0 {
        assert(table_upsert(m, k, fresh, f) =~= m.push((k, f(fresh))));
    } else {
        assert(m.first() == m[0]);
        assert(!table_contains(m.drop_first(), k)) by {
            assert(forall|i: int|
                0 <= i < m.drop_first().len() ==> #[trigger] m.drop_first()[i] == m[i + 1]);
        }
        lemma_table_upsert_new(m.drop_first(), k, fresh, f);
        assert(seq![m.first()] + m.drop_first().push((k, f(fresh))) =~= m.push((k, f(fresh))));
    }
}

/// Upserting a key already stored at position `i` rewrites that entry in
/// place — same key, value passed through `f` — and leaves everything else
/// unchanged.
pub proof fn lemma_table_upsert_existing<V>(
    m: Seq<(Seq<char>, V)>,
    k: Seq<char>,
    fresh: V,
    f: spec_fn(V) -> V,
    i: int,
)
    requires
        table_unique_keys(m),
        0 <= i < m.len(),
        m[i].0 == k,
    ensures
        table_upsert(m, k, fresh, f) == m.update(i, (k, f(m[i].1))),
    decreases m.len(),
{
    if i == 0 {
        assert(m.first() == m[0]);
        assert(seq![(k, f(m.first().1))] + m.drop_first() =~= m.update(0, (k, f(m[0].1))));
    } else {
        assert(m.first() == m[0]);
        assert(m.first().0 != k);
        assert(forall|j: int|
            0 <= j < m.drop_first().len() ==> #[trigger] m.drop_first()[j] == m[j + 1]);
        lemma_table_upsert_existing(m.drop_first(), k, fresh, f, i - 1);
        assert(seq![m.first()] + m.drop_first().update(i - 1, (k, f(m[i].1))) =~= m.update(
            i,
            (k, f(m[i].1)),
        ));
    }
}

/// A table of per-stream values keyed by stream name.  Keys are unique and
/// entries stay in the order in which their names were first seen.
pub struct StreamTable<T> {
    entries: Vec<(String, T)>,
}

impl<T: View> View for StreamTable<T> {
    type V = Seq<(Seq<char>, T::V)>;

    closed spec fn view(&self) -> Seq<(Seq<char>, T::V)> {
        Seq::new(self.entries@.len(), |i: int| (self.entries@[i].0@, self.entries@[i].1@))
    }
}

impl<T: View> StreamTable<T> {
    /// The table never stores two entries under one name.
    pub open spec fn wf(&self) -> bool {
        table_unique_keys(self@)
    }

    /// The stored values themselves, in table order.  Invariants about the
    /// values (beyond what their views show) are stated over this sequence.
    pub closed spec fn values(&self) -> Seq<T> {
        self.entries@.map_values(|e: (String, T)| e.1)
    }

    /// The views of the stored values are the value parts of the table view.
    pub proof fn lemma_values(&self)
        ensures
            self.values().len() == self@.len(),
            forall|i: int|
                0 <= i < self@.len() ==> (#[trigger] self.values()[i])@ == self@[i].1,
    {
    }

    /// Creates an empty table.
    pub fn new() -> (r: StreamTable<T>)
        ensures
            r.wf(),
            r@ == Seq::<(Seq<char>, T::V)>::empty(),
            r.values() == Seq::<T>::empty(),
    {
        let r = StreamTable { entries: Vec::new() };
        proof {
            assert(r@ =~= Seq::<(Seq<char>, T::V)>::empty());
            assert(r.values() =~= Seq::<T>::empty());
        }
        r
    }

    /// How many streams have been seen.
    pub fn len(&self) -> (r: usize)
        ensures
            r == self@.len(),
    {
        self.entries.len()
    }

    /// The position of the entry named `name`, if one exists.
    pub fn find_index(&self, name: &String) -> (r: Option<usize>)
        ensures
            match r {
                Option::Some(i) => i < self@.len() && self@[i as int].0 == name@,
                Option::None => !table_contains(self@, name@),
            },
    {
        let n = self.entries.len();
        let mut j: usize = 0;
        while j < n
            invariant
                0 <= j <= n,
                n == self@.len(),
                n == self.entries@.len(),
                forall|i: int| 0 <= i < j ==> (#[trigger] self@[i]).0 != name@,
            decreases n - j,
        {
            let e = self.entries.index(j);
            if e.0 == *name {
                assert(self@[j as int].0 == name@);
                return Some(j);
            }
            j = j + 1;
        }
        None
    }

    /// Removes and returns the entry at position `i`, to be modified and
    /// put back with `insert_at`.
    pub fn take_at(&mut self, i: usize) -> (r: (String, T))
        requires
            i < old(self)@.len(),
        ensures
            r.0@ == old(self)@[i as int].0,
            r.1 == old(self).values()[i as int],
            final(self)@ == old(self)@.remove(i as int),
            final(self).values() == old(self).values().remove(i as int),
    {
        let r = self.entries.remove(i);
        proof {
            assert(final(self)@ =~= old(self)@.remove(i as int));
            assert(final(self).values() =~= old(self).values().remove(i as int));
        }
        r
    }

    /// Puts an entry back at position `i`.
    pub fn insert_at(&mut self, i: usize, name: String, value: T)
        requires
            i <= old(self)@.len(),
        ensures
            final(self)@ == old(self)@.insert(i as int, (name@, value@)),
            final(self).values() == old(self).values().insert(i as int, value),
    {
        self.entries.insert(i, (name, value));
        proof {
            assert(final(self)@ =~= old(self)@.insert(i as int, (name@, value@)));
            assert(final(self).values() =~= old(self).values().insert(i as int, value));
        }
    }

    /// Appends a new entry at the end.
    pub fn push(&mut self, name: String, value: T)
        ensures
            final(self)@ == old(self)@.push((name@, value@)),
            final(self).values() == old(self).values().push(value),
    {
        self.entries.push((name, value));
        proof {
            assert(final(self)@ =~= old(self)@.push((name@, value@)));
            assert(final(self).values() =~= old(self).values().push(value));
        }
    }

    /// The name and a reference to the value stored at position `i`.
    pub fn entry_at(&self, i: usize) -> (r: (&String, &T))
        requires
            i < self@.len(),
        ensures
            r.0@ == self@[i as int].0,
            r.1 == self.values()[i as int],
            r.1@ == self@[i as int].1,
    {
        let e = self.entries.index(i);
        (&e.0, &e.1)
    }
}

} // verus!
