use vstd::prelude::*;

verus! {

/// A table from integer keys to values that keeps its entries in order of insertion.
///
/// The solver keys its tables by the id of a variable or by the identity of a constraint;
/// walking the entries in order of insertion keeps its pivot choices reproducible.
pub struct Table<V> {
    entries: Vec<(usize, V)>,
    map: Ghost<Map<usize, V>>,
}

impl<V: Copy> Table<V> {
    /// The table as a mapping from key to value.
    pub closed spec fn view(&self) -> Map<usize, V> {
        self.map@
    }

    /// The keys in order of insertion.
    pub closed spec fn key_order(&self) -> Seq<usize> {
        self.entries@.map_values(|e: (usize, V)| e.0)
    }

    /// The entries agree with the mapping, and no key occurs twice.
    pub closed spec fn wf(&self) -> bool {
        &&& forall|i: int|
            0 <= i < self.entries@.len() ==> #[trigger] self.map@.contains_key(self.entries@[i].0)
                && self.map@[self.entries@[i].0] == self.entries@[i].1
        &&& forall|k: usize|
            #[trigger] self.map@.contains_key(k) ==> exists|i: int|
                0 <= i < self.entries@.len() && #[trigger] self.entries@[i].0 == k
        &&& forall|i: int, j: int|
            0 <= i < j < self.entries@.len() ==> #[trigger] self.entries@[i].0
                != #[trigger] self.entries@[j].0
    }

    /// An empty table.
    pub fn new() -> (r: Table<V>)
        ensures
            r.wf(),
            r.view() == Map::<usize, V>::empty(),
    {
        Table { entries: Vec::new(), map: Ghost(Map::empty()) }
    }

    /// The number of entries.
    pub fn len(&self) -> (r: usize)
        requires
            self.wf(),
        ensures
            r == self.view().len(),
            r == self.key_order().len(),
    {
        proof {
            self.lemma_len();
        }
        self.entries.len()
    }

    /// The entry at position `i` in order of insertion.
    pub fn entry_at(&self, i: usize) -> (r: (usize, V))
        requires
            self.wf(),
            i < self.key_order().len(),
        ensures
            r.0 == self.key_order()[i as int],
            self.view().contains_key(r.0),
            self.view()[r.0] == r.1,
    {
        self.entries[i]
    }

    /// The position of `k` among the entries, if it has one.
    fn find(&self, k: usize) -> (r: Option<usize>)
        requires
            self.wf(),
        ensures
            match r {
                Some(i) => i < self.entries@.len() && self.entries@[i as int].0 == k,
                None => !self.view().contains_key(k),
            },
    {
        let mut i: usize = 0;
        while i < self.entries.len()
            invariant
                self.wf(),
                i <= self.entries@.len(),
                forall|j: int| 0 <= j < i ==> self.entries@[j].0 != k,
            decreases self.entries@.len() - i,
        {
            if self.entries[i].0 == k {
                return Some(i);
            }
            i = i + 1;
        }
        None
    }

    /// Whether `k` has an entry.
    pub fn contains(&self, k: usize) -> (r: bool)
        requires
            self.wf(),
        ensures
            r == self.view().contains_key(k),
    {
        self.find(k).is_some()
    }

    /// The value of `k`, if it has one.
    pub fn get(&self, k: usize) -> (r: Option<V>)
        requires
            self.wf(),
        ensures
            r == (if self.view().contains_key(k) {
                Some(self.view()[k])
            } else {
                None::<V>
            }),
    {
        match self.find(k) {
            Some(i) => Some(self.entries[i].1),
            None => None,
        }
    }

    /// Adds an entry for `k` when it has none; returns whether it did.
    pub fn insert(&mut self, k: usize, v: V) -> (r: bool)
        requires
            old(self).wf(),
        ensures
            final(self).wf(),
            r == !old(self).view().contains_key(k),
            r ==> final(self).view() == old(self).view().insert(k, v),
            r ==> final(self).key_order() == old(self).key_order().push(k),
            !r ==> *final(self) == *old(self),
    {
        if self.find(k).is_some() {
            return false;
        }
        let ghost old_entries = self.entries@;
        self.entries.push((k, v));
        self.map = Ghost(self.map@.insert(k, v));
        proof {
            assert forall|key: usize| #[trigger] self.map@.contains_key(key) implies exists|i: int|
                0 <= i < self.entries@.len() && #[trigger] self.entries@[i].0 == key by {
                if key == k {
                    assert(self.entries@[old_entries.len() as int].0 == key);
                } else {
                    let i = choose|i: int| 0 <= i < old_entries.len() && old_entries[i].0 == key;
                    assert(self.entries@[i].0 == key);
                }
            }
            assert(self.key_order() =~= old(self).key_order().push(k));
        }
        true
    }

    /// Gives `k` the value `v`, adding an entry for it if it has none.
    pub fn set(&mut self, k: usize, v: V)
        requires
            old(self).wf(),
        ensures
            final(self).wf(),
            final(self).view() == old(self).view().insert(k, v),
    {
        match self.find(k) {
            None => {
                self.insert(k, v);
            },
            Some(i) => {
                let ghost old_entries = self.entries@;
                let ghost old_map = self.map@;
                self.entries.set(i, (k, v));
                self.map = Ghost(self.map@.insert(k, v));
                proof {
                    assert forall|j: int| 0 <= j < self.entries@.len() implies #[trigger]
                        self.map@.contains_key(self.entries@[j].0) && self.map@[self.entries@[j].0]
                        == self.entries@[j].1 by {
                        if j != i {
                            assert(old_entries[j].0 != old_entries[i as int].0);
                            assert(old_map.contains_key(old_entries[j].0));
                        }
                    }
                    assert forall|key: usize| #[trigger] self.map@.contains_key(key) implies exists|
                        j: int,
                    | 0 <= j < self.entries@.len() && #[trigger] self.entries@[j].0 == key by {
                        if key == k {
                            assert(self.entries@[i as int].0 == key);
                        } else {
                            let j = choose|j: int|
                                0 <= j < old_entries.len() && old_entries[j].0 == key;
                            assert(self.entries@[j].0 == key);
                        }
                    }
                    assert forall|a: int, b: int| 0 <= a < b < self.entries@.len() implies #[trigger]
                        self.entries@[a].0 != #[trigger] self.entries@[b].0 by {
                        assert(old_entries[a].0 != old_entries[b].0);
                    }
                }
            },
        }
    }

    /// Removes the entry of `k`, if it has one, and returns its value.
    pub fn remove(&mut self, k: usize) -> (r: Option<V>)
        requires
            old(self).wf(),
        ensures
            final(self).wf(),
            r == (if old(self).view().contains_key(k) {
                Some(old(self).view()[k])
            } else {
                None::<V>
            }),
            final(self).view() == old(self).view().remove(k),
    {
        match self.find(k) {
            None => {
                assert(self.map@.remove(k) =~= self.map@);
                None
            },
            Some(i) => {
                let ghost old_entries = self.entries@;
                let ghost old_map = self.map@;
                let e = self.entries.remove(i);
                self.map = Ghost(self.map@.remove(k));
                proof {
                    assert forall|j: int| 0 <= j < self.entries@.len() implies #[trigger]
                        self.map@.contains_key(self.entries@[j].0) && self.map@[self.entries@[j].0]
                        == self.entries@[j].1 by {
                        if j < i {
                            assert(self.entries@[j] == old_entries[j]);
                            assert(old_entries[j].0 != old_entries[i as int].0);
                            assert(old_map.contains_key(old_entries[j].0));
                        } else {
                            assert(self.entries@[j] == old_entries[j + 1]);
                            assert(old_entries[i as int].0 != old_entries[j + 1].0);
                            assert(old_map.contains_key(old_entries[j + 1].0));
                        }
                    }
                    assert forall|key: usize| #[trigger] self.map@.contains_key(key) implies exists|
                        j: int,
                    | 0 <= j < self.entries@.len() && #[trigger] self.entries@[j].0 == key by {
                        let j = choose|j: int| 0 <= j < old_entries.len() && old_entries[j].0 == key;
                        if j < i {
                            assert(self.entries@[j].0 == key);
                        } else {
                            assert(self.entries@[j - 1].0 == key);
                        }
                    }
                    assert forall|a: int, b: int| 0 <= a < b < self.entries@.len() implies #[trigger]
                        self.entries@[a].0 != #[trigger] self.entries@[b].0 by {
                        let oa = if a < i {
                            a
                        } else {
                            a + 1
                        };
                        let ob = if b < i {
                            b
                        } else {
                            b + 1
                        };
                        assert(self.entries@[a] == old_entries[oa]);
                        assert(self.entries@[b] == old_entries[ob]);
                    }
                }
                Some(e.1)
            },
        }
    }

    proof fn lemma_len(&self)
        requires
            self.wf(),
        ensures
            self.view().len() == self.entries@.len(),
            self.key_order().len() == self.entries@.len(),
    {
        let ks = self.key_order();
        assert(ks.no_duplicates()) by {
            assert forall|i: int, j: int|
                0 <= i < ks.len() && 0 <= j < ks.len() && i != j implies ks[i] != ks[j] by {
                if i < j {
                    assert(self.entries@[i].0 != self.entries@[j].0);
                } else {
                    assert(self.entries@[j].0 != self.entries@[i].0);
                }
            }
        }
        ks.unique_seq_to_set();
        assert forall|k: usize| ks.to_set().contains(k) <==> self.map@.dom().contains(k) by {
            if ks.to_set().contains(k) {
                let i = choose|i: int| 0 <= i < ks.len() && ks[i] == k;
                assert(self.entries@[i].0 == k);
            }
            if self.map@.contains_key(k) {
                let i = choose|i: int| 0 <= i < self.entries@.len() && self.entries@[i].0 == k;
                assert(ks[i] == k);
            }
        }
        assert(ks.to_set() =~= self.map@.dom());
    }
}

} // verus!
