//! A map from account identifiers to records, kept as a vector of entries with
//! distinct keys.

use vstd::prelude::*;

verus! {

/// The records that `entries` describe, a later entry for a key replacing an
/// earlier one.
pub open spec fn map_of<V>(entries: Seq<(String, V)>) -> Map<Seq<char>, V>
    decreases entries.len(),
{
    if entries.len() == 0 {
        Map::empty()
    } else {
        map_of(entries.drop_last()).insert(entries.last().0@, entries.last().1)
    }
}

/// A key has a record in `map_of(entries)` exactly when some entry carries it.
pub proof fn lemma_map_of_keys<V>(entries: Seq<(String, V)>, k: Seq<char>)
    ensures
        map_of(entries).contains_key(k) <==> exists|i: int| 0 <= i < entries.len() && (#[trigger] entries[i]).0@ == k,
    decreases entries.len(),
{
    if entries.len() > 0 {
        let prefix = entries.drop_last();
        lemma_map_of_keys(prefix, k);
        if exists|i: int| 0 <= i < prefix.len() && (#[trigger] prefix[i]).0@ == k {
            let i = choose|i: int| 0 <= i < prefix.len() && (#[trigger] prefix[i]).0@ == k;
            assert(entries[i] == prefix[i]);
        }
        if exists|i: int| 0 <= i < entries.len() && (#[trigger] entries[i]).0@ == k {
            let i = choose|i: int| 0 <= i < entries.len() && (#[trigger] entries[i]).0@ == k;
            if i < entries.len() - 1 {
                assert(prefix[i] == entries[i]);
            }
        }
    }
}

/// Identifier-keyed records with set-like insert and remove.
pub struct Registry<V> {
    entries: Vec<(String, V)>,
}

impl<V> Registry<V> {
    /// The key of the `i`-th stored entry.
    pub closed spec fn key_at(&self, i: int) -> Seq<char> {
        self.entries@[i].0@
    }

    /// The record of the `i`-th stored entry.
    pub closed spec fn value_at(&self, i: int) -> V {
        self.entries@[i].1
    }

    pub closed spec fn stored(&self) -> int {
        self.entries@.len() as int
    }

    /// No key is stored twice.
    pub closed spec fn wf(&self) -> bool {
        forall|i: int, j: int|
            0 <= i < self.stored() && 0 <= j < self.stored() && i != j ==> self.key_at(i)
                != self.key_at(j)
    }

    pub closed spec fn has_key(&self, k: Seq<char>) -> bool {
        exists|i: int| 0 <= i < self.stored() && self.key_at(i) == k
    }

    pub closed spec fn index_of(&self, k: Seq<char>) -> int {
        choose|i: int| 0 <= i < self.stored() && self.key_at(i) == k
    }

    /// The records by key.
    pub closed spec fn view(&self) -> Map<Seq<char>, V> {
        Map::new(|k: Seq<char>| self.has_key(k), |k: Seq<char>| self.value_at(self.index_of(k)))
    }

    /// The stored entry at `i` is what the map holds for its key.
    pub proof fn lemma_entry(&self, i: int)
        requires
            self.wf(),
            0 <= i < self.stored(),
        ensures
            self@.contains_key(self.key_at(i)),
            self@[self.key_at(i)] == self.value_at(i),
            self.index_of(self.key_at(i)) == i,
    {
        assert(self.has_key(self.key_at(i)));
    }

    /// Two stored entries have different keys.
    pub proof fn lemma_distinct(&self, a: int, b: int)
        requires
            self.wf(),
            0 <= a < self.stored(),
            0 <= b < self.stored(),
            a != b,
        ensures
            self.key_at(a) != self.key_at(b),
    {
    }

    /// A key of the map is stored exactly once: with `lemma_idempotence`,
    /// inserting a record twice leaves exactly one stored entry for its key.
    pub proof fn lemma_one_entry(&self, k: Seq<char>)
        requires
            self.wf(),
            self@.contains_key(k),
        ensures
            forall|i: int| 0 <= i < self.stored() && self.key_at(i) == k <==> i == self.index_of(k),
    {
    }

    /// Every key of the map is stored at its index.
    pub proof fn lemma_key(&self, k: Seq<char>)
        requires
            self.wf(),
            self@.contains_key(k),
        ensures
            0 <= self.index_of(k) < self.stored(),
            self.key_at(self.index_of(k)) == k,
            self@[k] == self.value_at(self.index_of(k)),
    {
    }

    /// The number of stored entries is the number of keys.
    pub proof fn lemma_len(&self)
        requires
            self.wf(),
        ensures
            self@.dom().len() == self.stored(),
            self@.dom().finite(),
    {
        let keys = Seq::new(self.stored() as nat, |i: int| self.key_at(i));
        assert(keys.no_duplicates());
        keys.unique_seq_to_set();
        vstd::seq_lib::seq_to_set_is_finite(keys);
        assert forall|k: Seq<char>| keys.to_set().contains(k) <==> self@.dom().contains(k) by {
            if self@.dom().contains(k) {
                assert(keys[self.index_of(k)] == k);
            }
            if keys.to_set().contains(k) {
                let i = choose|i: int| 0 <= i < keys.len() && keys[i] == k;
                assert(self.key_at(i) == k);
            }
        }
        assert(keys.to_set() =~= self@.dom());
    }

    pub fn new() -> (r: Self)
        ensures
            r.wf(),
            r@ == Map::<Seq<char>, V>::empty(),
    {
        let r = Registry { entries: Vec::new() };
        assert(r@ =~= Map::<Seq<char>, V>::empty());
        r
    }

    /// Number of stored entries.
    pub fn len(&self) -> (n: usize)
        ensures
            n == self.stored(),
    {
        self.entries.len()
    }

    /// Position of `k`, if it is stored.
    pub fn find(&self, k: &String) -> (r: Option<usize>)
        requires
            self.wf(),
        ensures
            match r {
                Some(i) => i < self.stored() && self.key_at(i as int) == k@,
                None => !self@.contains_key(k@),
            },
    {
        let mut i: usize = 0;
        while i < self.entries.len()
            invariant
                i <= self.stored(),
                forall|j: int| 0 <= j < i ==> self.key_at(j) != k@,
            decreases self.stored() - i,
        {
            if self.entries[i].0 == *k {
                return Some(i);
            }
            i = i + 1;
        }
        None
    }

    pub fn contains_key(&self, k: &String) -> (r: bool)
        requires
            self.wf(),
        ensures
            r == self@.contains_key(k@),
    {
        match self.find(k) {
            Some(i) => {
                proof {
                    self.lemma_entry(i as int);
                }
                true
            },
            None => false,
        }
    }

    /// The record stored for `k`.
    pub fn get(&self, k: &String) -> (r: Option<&V>)
        requires
            self.wf(),
        ensures
            match r {
                Some(v) => self@.contains_key(k@) && *v == self@[k@],
                None => !self@.contains_key(k@),
            },
    {
        match self.find(k) {
            Some(i) => {
                proof {
                    self.lemma_entry(i as int);
                }
                Some(&self.entries[i].1)
            },
            None => None,
        }
    }

    /// The key and record stored at position `i`.
    pub fn entry_at(&self, i: usize) -> (r: (&String, &V))
        requires
            self.wf(),
            i < self.stored(),
        ensures
            r.0@ == self.key_at(i as int),
            *r.1 == self.value_at(i as int),
            self@.contains_key(r.0@),
            self@[r.0@] == *r.1,
    {
        proof {
            self.lemma_entry(i as int);
        }
        let e = &self.entries[i];
        (&e.0, &e.1)
    }
    /// Stores `v` under `k`, replacing any record already stored there.
    pub fn insert(&mut self, k: String, v: V)
        requires
            old(self).wf(),
        ensures
            final(self).wf(),
            final(self)@ == old(self)@.insert(k@, v),
    {
        let ghost pre = *self;
        let ghost key = k@;
        match self.find(&k) {
            Some(i) => {
                self.entries.set(i, (k, v));
                proof {
                    assert forall|j: int| 0 <= j < self.stored() implies self.key_at(j)
                        == pre.key_at(j) by {}
                    assert forall|a: int, b: int|
                        0 <= a < self.stored() && 0 <= b < self.stored() && a != b implies self.key_at(a)
                        != self.key_at(b) by {
                        assert(pre.key_at(a) != pre.key_at(b));
                    }
                    assert forall|q: Seq<char>| #[trigger]
                        self@.contains_key(q) == pre@.insert(key, v).contains_key(q) by {
                        if pre@.contains_key(q) {
                            pre.lemma_key(q);
                            assert(self.key_at(pre.index_of(q)) == q);
                        }
                        if self.has_key(q) {
                            let j = self.index_of(q);
                            assert(pre.key_at(j) == q);
                            pre.lemma_entry(j);
                        }
                    }
                    assert forall|q: Seq<char>| #[trigger]
                        self@.contains_key(q) implies self@[q] == pre@.insert(key, v)[q] by {
                        self.lemma_key(q);
                        let j = self.index_of(q);
                        if q != key {
                            pre.lemma_entry(j);
                        }
                    }
                    assert(self@ =~= pre@.insert(key, v));
                }
            },
            None => {
                self.entries.push((k, v));
                proof {
                    let n = pre.stored();
                    assert forall|j: int| 0 <= j < n implies self.key_at(j) == pre.key_at(j)
                        && self.value_at(j) == pre.value_at(j) by {}
                    assert(self.key_at(n) == key);
                    assert forall|a: int, b: int|
                        0 <= a < self.stored() && 0 <= b < self.stored() && a != b implies self.key_at(a)
                        != self.key_at(b) by {
                        if a < n {
                            pre.lemma_entry(a);
                        }
                        if b < n {
                            pre.lemma_entry(b);
                        }
                    }
                    assert forall|q: Seq<char>| #[trigger]
                        self@.contains_key(q) == pre@.insert(key, v).contains_key(q) by {
                        if pre@.contains_key(q) {
                            pre.lemma_key(q);
                            assert(self.key_at(pre.index_of(q)) == q);
                        }
                        if q == key {
                            assert(self.key_at(n) == q);
                        }
                        if self.has_key(q) && q != key {
                            let j = self.index_of(q);
                            assert(pre.key_at(j) == q);
                        }
                    }
                    assert forall|q: Seq<char>| #[trigger]
                        self@.contains_key(q) implies self@[q] == pre@.insert(key, v)[q] by {
                        self.lemma_key(q);
                        let j = self.index_of(q);
                        if j < n {
                            pre.lemma_entry(j);
                        }
                    }
                    assert(self@ =~= pre@.insert(key, v));
                }
            },
        }
    }

    /// Removes the record stored under `k` and returns it.
    pub fn remove(&mut self, k: &String) -> (r: Option<V>)
        requires
            old(self).wf(),
        ensures
            final(self).wf(),
            final(self)@ == old(self)@.remove(k@),
            match r {
                Some(v) => old(self)@.contains_key(k@) && v == old(self)@[k@],
                None => !old(self)@.contains_key(k@),
            },
    {
        let ghost pre = *self;
        match self.find(k) {
            Some(i) => {
                proof {
                    pre.lemma_entry(i as int);
                }
                let e = self.entries.remove(i);
                proof {
                    let key = k@;
                    assert forall|j: int| 0 <= j < self.stored() implies self.key_at(j) == (if j
                        < i {
                        pre.key_at(j)
                    } else {
                        pre.key_at(j + 1)
                    }) && self.value_at(j) == (if j < i {
                        pre.value_at(j)
                    } else {
                        pre.value_at(j + 1)
                    }) by {}
                    assert forall|j: int| 0 <= j < self.stored() implies self.key_at(j) != key by {
                        if j < i {
                            assert(pre.key_at(j) != pre.key_at(i as int));
                        } else {
                            assert(pre.key_at(j + 1) != pre.key_at(i as int));
                        }
                    }
                    assert forall|q: Seq<char>| #[trigger]
                        self@.contains_key(q) == pre@.remove(key).contains_key(q) by {
                        if pre@.contains_key(q) && q != key {
                            pre.lemma_key(q);
                            let j = pre.index_of(q);
                            if j < i {
                                assert(self.key_at(j) == q);
                            } else {
                                assert(self.key_at(j - 1) == q);
                            }
                        }
                        if self.has_key(q) {
                            let j = self.index_of(q);
                            if j < i {
                                pre.lemma_entry(j);
                            } else {
                                pre.lemma_entry(j + 1);
                            }
                        }
                    }
                    assert forall|q: Seq<char>| #[trigger]
                        self@.contains_key(q) implies self@[q] == pre@.remove(key)[q] by {
                        self.lemma_key(q);
                        let j = self.index_of(q);
                        if j < i {
                            pre.lemma_entry(j);
                        } else {
                            pre.lemma_entry(j + 1);
                        }
                    }
                    assert(self@ =~= pre@.remove(key));
                }
                Some(e.1)
            },
            None => {
                proof {
                    assert(self@ =~= pre@.remove(k@));
                }
                None
            },
        }
    }

    /// A registry holding the records that `entries` describe.
    pub fn from_entries(entries: Vec<(String, V)>) -> (r: Self)
        ensures
            r.wf(),
            r@ == map_of(entries@),
    {
        let ghost all = entries@;
        let mut r = Registry::new();
        let mut rest = entries;
        while rest.len() > 0
            invariant
                r.wf(),
                rest@.len() <= all.len(),
                rest@ == all.subrange(all.len() - rest@.len(), all.len() as int),
                r@ == map_of(all.take(all.len() - rest@.len())),
            decreases rest@.len(),
        {
            let ghost done = all.len() - rest@.len();
            let (k, v) = rest.remove(0);
            assert(all[done] == (k, v));
            r.insert(k, v);
            proof {
                assert(all.take(done + 1).drop_last() =~= all.take(done));
                assert(rest@ =~= all.subrange(all.len() - rest@.len(), all.len() as int));
            }
        }
        assert(all.take(all.len() as int) =~= all);
        r
    }

    /// The stored entries, each key once.
    pub fn into_entries(self) -> (r: Vec<(String, V)>)
        requires
            self.wf(),
        ensures
            map_of(r@) == self@,
            forall|i: int, j: int| 0 <= i < r@.len() && 0 <= j < r@.len() && i != j ==> r@[i].0@ != r@[j].0@,
    {
        proof {
            self.lemma_map_of(self.stored());
            assert(self.entries@.take(self.stored()) =~= self.entries@);
            assert(map_of(self.entries@) =~= self@);
            assert forall|i: int, j: int|
                0 <= i < self.stored() && 0 <= j < self.stored() && i != j implies self.entries@[i].0@
                != self.entries@[j].0@ by {
                self.lemma_distinct(i, j);
            }
        }
        self.entries
    }

    /// The first `n` stored entries describe the stored records of their keys.
    proof fn lemma_map_of(&self, n: int)
        requires
            self.wf(),
            0 <= n <= self.stored(),
        ensures
            forall|k: Seq<char>| #[trigger]
                map_of(self.entries@.take(n)).contains_key(k) <==> exists|i: int| 0 <= i < n && self.key_at(i) == k,
            forall|i: int| 0 <= i < n ==> #[trigger] map_of(self.entries@.take(n))[self.key_at(i)] == self.value_at(i),
        decreases n,
    {
        if n > 0 {
            self.lemma_map_of(n - 1);
            let t = self.entries@.take(n);
            assert(t.drop_last() =~= self.entries@.take(n - 1));
            assert(t.last() == self.entries@[n - 1]);
            assert(map_of(t) == map_of(self.entries@.take(n - 1)).insert(self.key_at(n - 1), self.value_at(n - 1)));
            assert forall|i: int| 0 <= i < n implies #[trigger] map_of(self.entries@.take(n))[self.key_at(i)]
                == self.value_at(i) by {
                if i < n - 1 {
                    self.lemma_distinct(i, n - 1);
                }
            }
            assert forall|k: Seq<char>| #[trigger] map_of(self.entries@.take(n)).contains_key(k) <==> exists|i: int|
                0 <= i < n && self.key_at(i) == k by {
                if k == self.key_at(n - 1) {
                } else if exists|i: int| 0 <= i < n && self.key_at(i) == k {
                    let i = choose|i: int| 0 <= i < n && self.key_at(i) == k;
                    assert(i < n - 1);
                }
            }
        }
    }

    /// Removes every entry.
    pub fn clear(&mut self)
        ensures
            final(self).wf(),
            final(self)@ == Map::<Seq<char>, V>::empty(),
    {
        self.entries = Vec::new();
        assert(self@ =~= Map::<Seq<char>, V>::empty());
    }
}

/// Inserting the same record twice under a key leaves one record for it, as
/// one insert does; removing a key twice is safe, and leaves no record for it.
pub proof fn lemma_idempotence<V>(r: Registry<V>, k: Seq<char>, v: V)
    requires
        r.wf(),
    ensures
        r@.insert(k, v).insert(k, v) == r@.insert(k, v),
        r@.insert(k, v).contains_key(k),
        r@.insert(k, v)[k] == v,
        r@.remove(k).remove(k) == r@.remove(k),
        !r@.remove(k).remove(k).contains_key(k),
{
    assert(r@.insert(k, v).insert(k, v) =~= r@.insert(k, v));
    assert(r@.remove(k).remove(k) =~= r@.remove(k));
}

} // verus!
