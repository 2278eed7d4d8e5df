//! A keyed store: a finite map from string ids to values.
//!
//! The store is backed by a vector of `(id, value)` entries whose ids are
//! pairwise distinct; its mathematical model is the `Map` from id character
//! sequences to values. Inserting an id that is already present silently
//! replaces the old value, removal of an absent id is a no-op, so the
//! store supports the registry's best-effort teardown directly.

use vstd::prelude::*;

verus! {

/// The map described by a sequence of `(id, value)` entries.
pub open spec fn map_of<V>(entries: Seq<(String, V)>) -> Map<Seq<char>, V>
    decreases entries.len(),
{
    if entries.len() == 0 {
        Map::empty()
    } else {
        map_of(entries.drop_last()).insert(entries.last().0@, entries.last().1)
    }
}

/// Pairwise distinct ids.
pub open spec fn distinct_keys<V>(entries: Seq<(String, V)>) -> bool {
    forall|i: int, j: int| 0 <= i < j < entries.len() ==> entries[i].0@ != entries[j].0@
}

proof fn lemma_map_of_contains<V>(entries: Seq<(String, V)>, k: Seq<char>)
    ensures
        map_of(entries).contains_key(k) <==> exists|i: int|
            0 <= i < entries.len() && entries[i].0@ == k,
    decreases entries.len(),
{
    if entries.len() > 0 {
        let last = entries.len() - 1;
        lemma_map_of_contains(entries.drop_last(), k);
        if entries.last().0@ == k {
            assert(entries[last].0@ == k);
        } else if map_of(entries).contains_key(k) {
            let i = choose|i: int| 0 <= i < entries.drop_last().len()
                && entries.drop_last()[i].0@ == k;
            assert(entries[i].0@ == k);
        } else if exists|i: int| 0 <= i < entries.len() && entries[i].0@ == k {
            let i = choose|i: int| 0 <= i < entries.len() && entries[i].0@ == k;
            assert(i < last);
            assert(entries.drop_last()[i].0@ == k);
        }
    }
}

proof fn lemma_distinct_drop_last<V>(entries: Seq<(String, V)>)
    requires
        distinct_keys(entries),
        entries.len() > 0,
    ensures
        distinct_keys(entries.drop_last()),
{
    assert forall|i: int, j: int|
        0 <= i < j < entries.drop_last().len() implies entries.drop_last()[i].0@
        != entries.drop_last()[j].0@ by {
        assert(entries[i].0@ != entries[j].0@);
    }
}

proof fn lemma_map_of_index<V>(entries: Seq<(String, V)>, i: int)
    requires
        distinct_keys(entries),
        0 <= i < entries.len(),
    ensures
        map_of(entries).contains_key(entries[i].0@),
        map_of(entries)[entries[i].0@] == entries[i].1,
    decreases entries.len(),
{
    let last = entries.len() - 1;
    if i < last {
        lemma_distinct_drop_last(entries);
        lemma_map_of_index(entries.drop_last(), i);
        assert(entries.drop_last()[i] == entries[i]);
        assert(entries[i].0@ != entries[last].0@);
    }
}

proof fn lemma_map_of_push<V>(entries: Seq<(String, V)>, e: (String, V))
    requires
        distinct_keys(entries),
        !map_of(entries).contains_key(e.0@),
    ensures
        map_of(entries.push(e)) == map_of(entries).insert(e.0@, e.1),
        distinct_keys(entries.push(e)),
{
    let grown = entries.push(e);
    assert(grown.drop_last() =~= entries);
    assert(grown.last() == e);
    lemma_map_of_contains(entries, e.0@);
    assert forall|i: int, j: int| 0 <= i < j < grown.len() implies grown[i].0@
        != grown[j].0@ by {
        if j == grown.len() - 1 {
            assert(grown[i] == entries[i]);
        }
    }
}

proof fn lemma_map_of_update_at<V>(entries: Seq<(String, V)>, i: int, e: (String, V))
    requires
        distinct_keys(entries),
        0 <= i < entries.len(),
        e.0@ == entries[i].0@,
    ensures
        map_of(entries.update(i, e)) =~= map_of(entries).insert(e.0@, e.1),
        distinct_keys(entries.update(i, e)),
    decreases entries.len(),
{
    let last = entries.len() - 1;
    let changed = entries.update(i, e);
    assert forall|p: int, q: int| 0 <= p < q < changed.len() implies changed[p].0@
        != changed[q].0@ by {
        assert(entries[p].0@ != entries[q].0@);
    }
    if i == last {
        assert(changed.drop_last() =~= entries.drop_last());
        assert(changed.last() == e);
        lemma_distinct_drop_last(entries);
        lemma_map_of_contains(entries.drop_last(), e.0@);
    } else {
        lemma_distinct_drop_last(entries);
        lemma_map_of_update_at(entries.drop_last(), i, e);
        assert(changed.drop_last() =~= entries.drop_last().update(i, e));
        assert(changed.last() == entries.last());
        assert(entries[i].0@ != entries[last].0@);
    }
}

proof fn lemma_map_of_remove_at<V>(entries: Seq<(String, V)>, i: int)
    requires
        distinct_keys(entries),
        0 <= i < entries.len(),
    ensures
        map_of(entries.remove(i)) =~= map_of(entries).remove(entries[i].0@),
        distinct_keys(entries.remove(i)),
    decreases entries.len(),
{
    let last = entries.len() - 1;
    let shrunk = entries.remove(i);
    assert forall|p: int, q: int| 0 <= p < q < shrunk.len() implies shrunk[p].0@
        != shrunk[q].0@ by {
        let p0: int = if p < i { p } else { p + 1 };
        let q0: int = if q < i { q } else { q + 1 };
        assert(shrunk[p] == entries[p0]);
        assert(shrunk[q] == entries[q0]);
        assert(entries[p0].0@ != entries[q0].0@);
    }
    lemma_distinct_drop_last(entries);
    if i == last {
        assert(shrunk =~= entries.drop_last());
        lemma_map_of_contains(entries.drop_last(), entries[last].0@);
    } else {
        lemma_map_of_remove_at(entries.drop_last(), i);
        assert(shrunk.drop_last() =~= entries.drop_last().remove(i));
        assert(shrunk.last() == entries.last());
        assert(entries[i].0@ != entries[last].0@);
    }
}

/// A finite map from session ids to values of type `V`.
pub struct Store<V> {
    entries: Vec<(String, V)>,
}

impl<V> Store<V> {
    /// The mathematical content of the store.
    pub closed spec fn view(&self) -> Map<Seq<char>, V> {
        map_of(self.entries@)
    }

    /// The store's ids are pairwise distinct.
    pub closed spec fn wf(&self) -> bool {
        distinct_keys(self.entries@)
    }

    /// An empty store.
    pub fn new() -> (s: Store<V>)
        ensures
            s.wf(),
            s@ == Map::<Seq<char>, V>::empty(),
    {
        Store { entries: Vec::new() }
    }

    /// The position of `k` among the entries, if present.
    fn position(&self, k: &String) -> (r: Option<usize>)
        requires
            self.wf(),
        ensures
            match r {
                Some(i) => i < self.entries@.len() && self.entries@[i as int].0@ == k@,
                None => !self@.contains_key(k@),
            },
    {
        proof {
            lemma_map_of_contains(self.entries@, k@);
        }
        let n = self.entries.len();
        let mut i: usize = 0;
        while i < n
            invariant
                n == self.entries@.len(),
                i <= n,
                forall|j: int| 0 <= j < i ==> self.entries@[j].0@ != k@,
            decreases n - i,
        {
            if self.entries[i].0 == *k {
                return Some(i);
            }
            i = i + 1;
        }
        None
    }

    /// Whether `k` names an entry.
    pub fn contains(&self, k: &String) -> (r: bool)
        requires
            self.wf(),
        ensures
            r == self@.contains_key(k@),
    {
        proof {
            lemma_map_of_contains(self.entries@, k@);
        }
        match self.position(k) {
            Some(i) => {
                proof {
                    lemma_map_of_index(self.entries@, i as int);
                }
                true
            },
            None => false,
        }
    }

    /// A borrow of the value at `k`, if present.
    pub fn get(&self, k: &String) -> (r: Option<&V>)
        requires
            self.wf(),
        ensures
            match r {
                Some(v) => self@.contains_key(k@) && *v == self@[k@],
                None => !self@.contains_key(k@),
            },
    {
        match self.position(k) {
            Some(i) => {
                proof {
                    lemma_map_of_index(self.entries@, i as int);
                }
                Some(&self.entries[i].1)
            },
            None => None,
        }
    }

    /// Puts `v` at `k`, replacing any value already there.
    pub fn insert(&mut self, k: String, v: V)
        requires
            old(self).wf(),
        ensures
            final(self).wf(),
            final(self)@ == old(self)@.insert(k@, v),
    {
        match self.position(&k) {
            Some(i) => {
                proof {
                    lemma_map_of_update_at(self.entries@, i as int, (k, v));
                }
                self.entries.set(i, (k, v));
            },
            None => {
                proof {
                    lemma_map_of_push(self.entries@, (k, v));
                }
                self.entries.push((k, v));
            },
        }
    }

    /// Takes the value at `k` out of the store, if present.
    pub fn remove(&mut self, k: &String) -> (r: Option<V>)
        requires
            old(self).wf(),
        ensures
            final(self).wf(),
            final(self)@ == old(self)@.remove(k@),
            match r {
                Some(v) => old(self)@.contains_key(k@) && v == old(self)@[k@],
                None => !old(self)@.contains_key(k@),
            },
    {
        match self.position(k) {
            Some(i) => {
                proof {
                    lemma_map_of_index(self.entries@, i as int);
                    lemma_map_of_remove_at(self.entries@, i as int);
                }
                let (_, v) = self.entries.remove(i);
                Some(v)
            },
            None => {
                proof {
                    assert(self@.remove(k@) =~= self@);
                }
                None
            },
        }
    }

    /// Empties the store.
    pub fn clear(&mut self)
        ensures
            final(self).wf(),
            final(self)@ == Map::<Seq<char>, V>::empty(),
    {
        self.entries.clear();
    }

    /// Every id in the store, each exactly once, in no promised order.
    pub fn keys(&self) -> (r: Vec<String>)
        requires
            self.wf(),
        ensures
            forall|i: int| 0 <= i < r@.len() ==> self@.contains_key(#[trigger] r@[i]@),
            forall|k: Seq<char>| #[trigger]
                self@.contains_key(k) ==> exists|i: int| 0 <= i < r@.len() && r@[i]@ == k,
            forall|i: int, j: int| 0 <= i < j < r@.len() ==> r@[i]@ != r@[j]@,
    {
        let n = self.entries.len();
        let mut r: Vec<String> = Vec::new();
        let mut i: usize = 0;
        while i < n
            invariant
                self.wf(),
                n == self.entries@.len(),
                i <= n,
                r@.len() == i,
                forall|j: int| 0 <= j < i ==> r@[j]@ == self.entries@[j].0@,
            decreases n - i,
        {
            r.push(self.entries[i].0.clone());
            i = i + 1;
        }
        proof {
            assert forall|i2: int| 0 <= i2 < r@.len() implies self@.contains_key(
                #[trigger] r@[i2]@,
            ) by {
                lemma_map_of_index(self.entries@, i2);
            }
            assert forall|k: Seq<char>| #[trigger]
                self@.contains_key(k) implies exists|i2: int|
                0 <= i2 < r@.len() && r@[i2]@ == k by {
                lemma_map_of_contains(self.entries@, k);
                let i2 = choose|i2: int| 0 <= i2 < self.entries@.len()
                    && self.entries@[i2].0@ == k;
                assert(r@[i2]@ == k);
            }
        }
        r
    }
}

} // verus!
