//! A finite map from keys to records, kept as a list of entries.

use vstd::prelude::*;

use crate::primitives::{list_contains, Key, Record};

verus! {

/// The value that a map holds under a key, if any.
pub open spec fn find<K, V>(map: Map<K, V>, key: K) -> Option<V> {
    if map.contains_key(key) {
        Some(map[key])
    } else {
        None
    }
}

/// The value that a map holds under a key, or another value where it holds none.
pub open spec fn find_or<K, V>(map: Map<K, V>, key: K, other: V) -> V {
    if map.contains_key(key) {
        map[key]
    } else {
        other
    }
}

/// The view of an optional record.
pub open spec fn opt_view<V: View>(value: Option<V>) -> Option<V::V> {
    match value {
        Some(v) => Some(v@),
        None => None,
    }
}

/// Entries whose later ones win over earlier ones with the same key, as a map.
pub closed spec fn entries_map<K, V: View>(entries: Seq<(K, V)>) -> Map<K, V::V>
    decreases entries.len(),
{
    if entries.len() == 0 {
        Map::empty()
    } else {
        entries_map(entries.drop_last()).insert(entries.last().0, entries.last().1@)
    }
}

/// A finite map from keys to records.
#[derive(Debug)]
pub struct Table<K, V> {
    entries: Vec<(K, V)>,
}

impl<K, V: View> View for Table<K, V> {
    type V = Map<K, V::V>;

    closed spec fn view(&self) -> Map<K, V::V> {
        entries_map(self.entries@)
    }
}

/// A map of entries holds exactly the keys of the entries.
proof fn lemma_entries_keys<K, V: View>(entries: Seq<(K, V)>, key: K)
    ensures
        entries_map(entries).contains_key(key) <==> exists|i: int|
            0 <= i < entries.len() && entries[i].0 == key,
    decreases entries.len(),
{
    if entries.len() > 0 {
        let init = entries.drop_last();
        lemma_entries_keys(init, key);
        if entries.last().0 == key {
            assert(entries[entries.len() - 1].0 == key);
        } else if entries_map(init).contains_key(key) {
            let i = choose|i: int| 0 <= i < init.len() && init[i].0 == key;
            assert(entries[i].0 == key);
        }
        if exists|i: int| 0 <= i < entries.len() && entries[i].0 == key {
            let i = choose|i: int| 0 <= i < entries.len() && entries[i].0 == key;
            if i < init.len() {
                assert(init[i].0 == key);
            }
        }
    }
}

/// The last entry of a key decides what the map holds under it.
proof fn lemma_entries_last<K, V: View>(entries: Seq<(K, V)>, i: int)
    requires
        0 <= i < entries.len(),
        forall|j: int| i < j < entries.len() ==> entries[j].0 != entries[i].0,
    ensures
        entries_map(entries).contains_key(entries[i].0),
        entries_map(entries)[entries[i].0] == entries[i].1@,
    decreases entries.len(),
{
    if i < entries.len() - 1 {
        assert(entries[entries.len() - 1].0 != entries[i].0);
        lemma_entries_last(entries.drop_last(), i);
    }
}

/// Replacing the last entry of a key replaces what the map holds under it.
proof fn lemma_entries_update<K, V: View>(entries: Seq<(K, V)>, i: int, value: V)
    requires
        0 <= i < entries.len(),
        forall|j: int| i < j < entries.len() ==> entries[j].0 != entries[i].0,
    ensures
        entries_map(entries.update(i, (entries[i].0, value))) =~= entries_map(entries).insert(
            entries[i].0,
            value@,
        ),
    decreases entries.len(),
{
    let changed = entries.update(i, (entries[i].0, value));
    if i < entries.len() - 1 {
        let init = entries.drop_last();
        lemma_entries_update(init, i, value);
        assert(changed.drop_last() =~= init.update(i, (init[i].0, value)));
        assert(entries[entries.len() - 1].0 != entries[i].0);
    } else {
        assert(changed.drop_last() =~= entries.drop_last());
    }
}

impl<K: Key, V: Record> Table<K, V> {
    /// The map without entries.
    pub fn new() -> (r: Self)
        ensures
            r@ == Map::<K, V::V>::empty(),
    {
        Table { entries: Vec::new() }
    }

    /// Position of the last entry of a key.
    fn position(&self, key: &K) -> (r: Option<usize>)
        ensures
            match r {
                Some(i) => {
                    &&& i < self.entries@.len()
                    &&& self.entries@[i as int].0 == *key
                    &&& forall|j: int|
                        i < j < self.entries@.len() ==> self.entries@[j].0 != *key
                },
                None => forall|j: int|
                    0 <= j < self.entries@.len() ==> self.entries@[j].0 != *key,
            },
    {
        let mut i: usize = self.entries.len();
        while i > 0
            invariant
                i <= self.entries@.len(),
                forall|j: int| i <= j < self.entries@.len() ==> self.entries@[j].0 != *key,
            decreases i,
        {
            i -= 1;
            if self.entries[i].0.same(key) {
                return Some(i);
            }
        }
        None
    }

    /// The record under a key.
    pub fn get(&self, key: &K) -> (r: Option<&V>)
        ensures
            match r {
                Some(v) => find(self@, *key) == Some(v@),
                None => find(self@, *key) == None::<V::V>,
            },
    {
        match self.position(key) {
            Some(i) => {
                proof {
                    lemma_entries_last(self.entries@, i as int);
                }
                Some(&self.entries[i].1)
            },
            None => {
                proof {
                    lemma_entries_keys(self.entries@, *key);
                }
                None
            },
        }
    }

    /// A copy of the record under a key.
    pub fn fetch(&self, key: &K) -> (r: Option<V>)
        ensures
            opt_view(r) == find(self@, *key),
    {
        match self.get(key) {
            Some(v) => Some(v.duplicate()),
            None => None,
        }
    }

    /// Whether there is a record under a key.
    pub fn contains(&self, key: &K) -> (r: bool)
        ensures
            r == self@.contains_key(*key),
    {
        self.get(key).is_some()
    }

    /// Puts a record under a key.
    pub fn insert(&mut self, key: K, value: V)
        ensures
            final(self)@ == old(self)@.insert(key, value@),
    {
        match self.position(&key) {
            Some(i) => {
                proof {
                    lemma_entries_update(self.entries@, i as int, value);
                }
                self.entries[i] = (key, value);
            },
            None => {
                self.entries.push((key, value));
                assert(self.entries@.drop_last() =~= old(self).entries@);
            },
        }
    }

    /// Takes the record under a key out.
    pub fn remove(&mut self, key: &K)
        ensures
            final(self)@ == old(self)@.remove(*key),
    {
        let mut kept: Vec<(K, V)> = Vec::new();
        let mut i: usize = 0;
        while i < self.entries.len()
            invariant
                i <= self.entries@.len(),
                entries_map(kept@) =~= entries_map(self.entries@.take(i as int)).remove(*key),
                *self == *old(self),
            decreases self.entries@.len() - i,
        {
            let ghost shorter = kept@;
            assert(self.entries@.take(i + 1).drop_last() =~= self.entries@.take(i as int));
            if !self.entries[i].0.same(key) {
                kept.push((self.entries[i].0, self.entries[i].1.duplicate()));
                assert(kept@.drop_last() =~= shorter);
            }
            i += 1;
        }
        assert(self.entries@.take(self.entries@.len() as int) =~= self.entries@);
        self.entries = kept;
    }

    /// The keys, each once, in no particular order.
    pub fn keys(&self) -> (r: Vec<K>)
        ensures
            r@.no_duplicates(),
            forall|k: K| #[trigger] r@.contains(k) <==> self@.contains_key(k),
    {
        let mut r: Vec<K> = Vec::new();
        let mut i: usize = 0;
        while i < self.entries.len()
            invariant
                i <= self.entries@.len(),
                r@.no_duplicates(),
                forall|k: K| #[trigger]
                    r@.contains(k) <==> entries_map(
                        self.entries@.take(i as int),
                    ).contains_key(k),
            decreases self.entries@.len() - i,
        {
            let key = self.entries[i].0;
            let ghost shorter = r@;
            assert(self.entries@.take(i + 1).drop_last() =~= self.entries@.take(i as int));
            if !list_contains(&r, &key) {
                r.push(key);
                assert forall|k: K| #[trigger]
                    r@.contains(k) <==> shorter.contains(k) || k == key by {
                    crate::primitives::lemma_push_contains(shorter, key, k);
                }
            }
            i += 1;
        }
        assert(self.entries@.take(self.entries@.len() as int) =~= self.entries@);
        r
    }

    /// Number of keys.
    pub fn len(&self) -> (r: usize)
        ensures
            self@.dom().finite(),
            r == self@.dom().len(),
    {
        let keys = self.keys();
        proof {
            keys@.unique_seq_to_set();
            assert(keys@.to_set() =~= self@.dom());
        }
        keys.len()
    }
}

impl<K: Key, V: Record> Record for Table<K, V> {
    fn duplicate(&self) -> (copy: Self) {
        let mut copied: Vec<(K, V)> = Vec::new();
        let mut i: usize = 0;
        while i < self.entries.len()
            invariant
                i <= self.entries@.len(),
                entries_map(copied@) =~= entries_map(self.entries@.take(i as int)),
            decreases self.entries@.len() - i,
        {
            let ghost shorter = copied@;
            assert(self.entries@.take(i + 1).drop_last() =~= self.entries@.take(i as int));
            copied.push((self.entries[i].0, self.entries[i].1.duplicate()));
            assert(copied@.drop_last() =~= shorter);
            i += 1;
        }
        assert(self.entries@.take(self.entries@.len() as int) =~= self.entries@);
        Table { entries: copied }
    }
}

} // verus!
