use vstd::prelude::*;

verus! {

/// A key under which the contract stores a record: it can be compared for
/// equality at run time exactly as in specifications.
pub trait StorageKey: Copy + Sized {
    fn same_key(&self, other: &Self) -> (b: bool)
        ensures
            b == (*self == *other),
    ;
}

impl StorageKey for u64 {
    fn same_key(&self, other: &Self) -> (b: bool) {
        *self == *other
    }
}

/// A finite map held as a list of entries with distinct keys: the model of
/// one kind of record in the contract's ledger storage.
#[verifier::reject_recursive_types(K)]
pub struct Table<K: StorageKey, V> {
    entries: Vec<(K, V)>,
    contents: Ghost<Map<K, V>>,
}

impl<K: StorageKey, V> View for Table<K, V> {
    type V = Map<K, V>;

    closed spec fn view(&self) -> Map<K, V> {
        self.contents@
    }
}

impl<K: StorageKey, V> Table<K, V> {
    /// The entries have distinct keys and hold exactly the pairs of `m`.
    closed spec fn holds(entries: Seq<(K, V)>, m: Map<K, V>) -> bool {
        &&& forall|i: int, j: int|
            0 <= i < j < entries.len() ==> #[trigger] entries[i].0 != #[trigger] entries[j].0
        &&& forall|i: int|
            0 <= i < entries.len() ==> m.contains_key(#[trigger] entries[i].0) && m[entries[i].0]
                == entries[i].1
        &&& forall|k: K|
            #[trigger] m.contains_key(k) ==> exists|i: int|
                0 <= i < entries.len() && #[trigger] entries[i].0 == k
    }

    #[verifier::type_invariant]
    closed spec fn entries_match(self) -> bool {
        Self::holds(self.entries@, self.contents@)
    }

    pub fn new() -> (t: Self)
        ensures
            t@ == Map::<K, V>::empty(),
    {
        Table { entries: Vec::new(), contents: Ghost(Map::empty()) }
    }

    fn position(entries: &Vec<(K, V)>, key: K) -> (r: Option<usize>)
        ensures
            match r {
                Some(i) => i < entries@.len() && entries@[i as int].0 == key,
                None => forall|i: int| 0 <= i < entries@.len() ==> entries@[i].0 != key,
            },
    {
        let mut i: usize = 0;
        while i < entries.len()
            invariant
                i <= entries@.len(),
                forall|j: int| 0 <= j < i ==> entries@[j].0 != key,
            decreases entries@.len() - i,
        {
            if entries[i].0.same_key(&key) {
                return Some(i);
            }
            i = i + 1;
        }
        None
    }

    pub fn contains(&self, key: K) -> (b: bool)
        ensures
            b == self@.contains_key(key),
    {
        proof {
            use_type_invariant(self);
        }
        Self::position(&self.entries, key).is_some()
    }

    pub fn get(&self, key: K) -> (r: Option<&V>)
        ensures
            match r {
                Some(v) => self@.contains_key(key) && *v == self@[key],
                None => !self@.contains_key(key),
            },
    {
        proof {
            use_type_invariant(self);
        }
        match Self::position(&self.entries, key) {
            Some(i) => Some(&self.entries[i].1),
            None => None,
        }
    }

    pub fn insert(&mut self, key: K, value: V)
        ensures
            final(self)@ == old(self)@.insert(key, value),
    {
        proof {
            use_type_invariant(&*self);
        }
        let mut taken = Table::new();
        std::mem::swap(self, &mut taken);
        proof {
            use_type_invariant(&taken);
        }
        let Table { mut entries, contents } = taken;
        let ghost old_entries = entries@;
        let ghost m = contents@.insert(key, value);
        match Self::position(&entries, key) {
            Some(i) => {
                entries.set(i, (key, value));
                proof {
                    assert forall|k: K| #[trigger] m.contains_key(k) implies exists|j: int|
                        0 <= j < entries@.len() && #[trigger] entries@[j].0 == k by {
                        if k != key {
                            let j = choose|j: int| 0 <= j < old_entries.len() && old_entries[j].0 == k;
                            assert(entries@[j].0 == k);
                        } else {
                            assert(entries@[i as int].0 == k);
                        }
                    }
                }
            },
            None => {
                entries.push((key, value));
                proof {
                    assert forall|k: K| #[trigger] m.contains_key(k) implies exists|j: int|
                        0 <= j < entries@.len() && #[trigger] entries@[j].0 == k by {
                        if k != key {
                            let j = choose|j: int| 0 <= j < old_entries.len() && old_entries[j].0 == k;
                            assert(entries@[j].0 == k);
                        } else {
                            assert(entries@[old_entries.len() as int].0 == k);
                        }
                    }
                }
            },
        }
        assert(Self::holds(entries@, m));
        *self = Table { entries, contents: Ghost(m) };
    }

    pub fn remove(&mut self, key: K)
        ensures
            final(self)@ == old(self)@.remove(key),
    {
        proof {
            use_type_invariant(&*self);
        }
        let mut taken = Table::new();
        std::mem::swap(self, &mut taken);
        proof {
            use_type_invariant(&taken);
        }
        let Table { mut entries, contents } = taken;
        let ghost old_entries = entries@;
        let ghost m = contents@.remove(key);
        match Self::position(&entries, key) {
            Some(i) => {
                entries.remove(i);
                proof {
                    assert forall|a: int, b: int|
                        0 <= a < b < entries@.len() implies #[trigger] entries@[a].0
                        != #[trigger] entries@[b].0 by {
                        let oa = if a < i { a } else { a + 1 };
                        let ob = if b < i { b } else { b + 1 };
                        assert(entries@[a] == old_entries[oa]);
                        assert(entries@[b] == old_entries[ob]);
                    }
                    assert forall|j: int| 0 <= j < entries@.len() implies m.contains_key(
                        #[trigger] entries@[j].0,
                    ) && m[entries@[j].0] == entries@[j].1 by {
                        let oj = if j < i { j } else { j + 1 };
                        assert(entries@[j] == old_entries[oj]);
                        assert(old_entries[oj].0 != old_entries[i as int].0);
                    }
                    assert forall|k: K| #[trigger] m.contains_key(k) implies exists|j: int|
                        0 <= j < entries@.len() && #[trigger] entries@[j].0 == k by {
                        let oj = choose|j: int| 0 <= j < old_entries.len() && old_entries[j].0 == k;
                        assert(oj != i);
                        let j = if oj < i { oj } else { oj - 1 };
                        assert(entries@[j] == old_entries[oj]);
                    }
                }
            },
            None => {
                proof {
                    assert forall|k: K| #[trigger] m.contains_key(k) implies exists|j: int|
                        0 <= j < entries@.len() && #[trigger] entries@[j].0 == k by {
                        let j = choose|j: int| 0 <= j < old_entries.len() && old_entries[j].0 == k;
                        assert(entries@[j].0 == k);
                    }
                }
            },
        }
        assert(Self::holds(entries@, m));
        *self = Table { entries, contents: Ghost(m) };
    }
}

} // verus!
