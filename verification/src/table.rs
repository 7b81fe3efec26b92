//! An association table: a map from keys to values, held as the list of its entries.
use vstd::prelude::*;

verus! {

/// A type whose values are told apart by what they show.
pub trait Key: View + Sized {
    /// Whether the two keys show the same.
    fn same(&self, other: &Self) -> (b: bool)
        ensures
            b == (self@ == other@),
    ;
}

impl Key for String {
    fn same(&self, other: &Self) -> (b: bool) {
        *self == *other
    }
}

/// A map from keys to values.
///
/// A value is found by what its key shows. No two entries have keys that show the same. The table
/// is for keys of which the specification of std's hash maps says nothing, such as texts.
#[derive(Debug)]
pub struct Table<K, V> {
    entries: Vec<(K, V)>,
}

impl<K: Key, V> View for Table<K, V> {
    type V = Map<K::V, V>;

    closed spec fn view(&self) -> Map<K::V, V> {
        Map::new(
            |key: K::V|
                exists|i: int|
                    0 <= i < self.entries@.len() && (#[trigger] self.entries@[i]).0@ == key,
            |key: K::V| self.entries@[self.index_of(key)].1,
        )
    }
}

impl<K: Key, V> Table<K, V> {
    /// The place of the entry whose key shows `key`.
    spec fn index_of(&self, key: K::V) -> int {
        choose|i: int| 0 <= i < self.entries@.len() && (#[trigger] self.entries@[i]).0@ == key
    }

    /// No two entries have keys that show the same.
    pub closed spec fn wf(&self) -> bool {
        forall|i: int, j: int|
            0 <= i < self.entries@.len() && 0 <= j < self.entries@.len() && i != j ==> (
            #[trigger] self.entries@[i]).0@ != (#[trigger] self.entries@[j]).0@
    }

    /// What the table maps the key of its entry `i` to.
    proof fn lemma_entry(&self, i: int)
        requires
            self.wf(),
            0 <= i < self.entries@.len(),
        ensures
            self@.contains_key(self.entries@[i].0@),
            self@[self.entries@[i].0@] == self.entries@[i].1,
    {
    }

    /// The empty table.
    pub fn new() -> (table: Self)
        ensures
            table.wf(),
            table@ == Map::<K::V, V>::empty(),
    {
        let table = Table { entries: Vec::new() };
        assert(table@ =~= Map::<K::V, V>::empty());
        table
    }

    /// The entries, in no particular order.
    pub fn entries(&self) -> (entries: &Vec<(K, V)>)
        requires
            self.wf(),
        ensures
            forall|i: int|
                0 <= i < entries@.len() ==> self@.contains_key((#[trigger] entries@[i]).0@)
                    && self@[entries@[i].0@] == entries@[i].1,
            forall|key: K::V| #[trigger]
                self@.contains_key(key) ==> exists|i: int|
                    0 <= i < entries@.len() && (#[trigger] entries@[i]).0@ == key,
            forall|i: int, j: int|
                0 <= i < entries@.len() && 0 <= j < entries@.len() && i != j ==> (
                #[trigger] entries@[i]).0@ != (#[trigger] entries@[j]).0@,
    {
        &self.entries
    }

    /// The place of the entry whose key shows the same as `key`.
    fn find(&self, key: &K) -> (found: Option<usize>)
        requires
            self.wf(),
        ensures
            match found {
                Some(i) => i < self.entries@.len() && self.entries@[i as int].0@ == key@
                    && self@.contains_key(key@) && self@[key@] == self.entries@[i as int].1,
                None => !self@.contains_key(key@),
            },
    {
        let mut i: usize = 0;
        while i < self.entries.len()
            invariant
                self.wf(),
                i <= self.entries@.len(),
                forall|j: int| 0 <= j < i ==> (#[trigger] self.entries@[j]).0@ != key@,
            decreases self.entries@.len() - i,
        {
            if self.entries[i].0.same(key) {
                proof {
                    self.lemma_entry(i as int);
                }
                return Some(i);
            }
            i = i + 1;
        }
        None
    }

    /// Whether the table maps `key` to a value.
    pub fn contains_key(&self, key: &K) -> (b: bool)
        requires
            self.wf(),
        ensures
            b == self@.contains_key(key@),
    {
        self.find(key).is_some()
    }

    /// The value that the table maps `key` to.
    pub fn get(&self, key: &K) -> (value: Option<&V>)
        requires
            self.wf(),
        ensures
            match value {
                Some(v) => self@.contains_key(key@) && *v == self@[key@],
                None => !self@.contains_key(key@),
            },
    {
        match self.find(key) {
            Some(i) => Some(&self.entries[i].1),
            None => None,
        }
    }

    /// Takes the value of `key` out of the table, and hands it back.
    pub fn remove(&mut self, key: &K) -> (removed: Option<V>)
        requires
            old(self).wf(),
        ensures
            final(self).wf(),
            final(self)@ == old(self)@.remove(key@),
            removed == (if old(self)@.contains_key(key@) {
                Some(old(self)@[key@])
            } else {
                None
            }),
    {
        match self.find(key) {
            Some(i) => {
                let ghost before = *self;
                let (_, value) = self.entries.remove(i);
                proof {
                    assert(self.entries@ == before.entries@.remove(i as int));
                    self.lemma_without(&before, i as int);
                }
                Some(value)
            },
            None => {
                assert(self@ =~= self@.remove(key@));
                None
            },
        }
    }

    /// Leaving out the entry `i` leaves out its key.
    proof fn lemma_without(&self, before: &Self, i: int)
        requires
            before.wf(),
            0 <= i < before.entries@.len(),
            self.entries@ == before.entries@.remove(i),
        ensures
            self.wf(),
            self@ == before@.remove(before.entries@[i].0@),
    {
        let key = before.entries@[i].0@;
        assert forall|j: int| 0 <= j < self.entries@.len() implies #[trigger] self.entries@[j]
            == before.entries@[if j < i { j } else { j + 1 }] by {}
        assert(self.wf());
        assert forall|k: K::V| self@.contains_key(k) <==> #[trigger] before@.remove(
            key,
        ).contains_key(k) by {
            if before@.contains_key(k) && k != key {
                let j = before.index_of(k);
                assert(self.entries@[if j < i { j } else { j - 1 }].0@ == k);
            }
            if self@.contains_key(k) {
                let j = self.index_of(k);
                before.lemma_entry(if j < i { j } else { j + 1 });
            }
        }
        assert forall|k: K::V| #[trigger] self@.contains_key(k) implies self@[k] == before@.remove(
            key,
        )[k] by {
            let j = self.index_of(k);
            self.lemma_entry(j);
            before.lemma_entry(if j < i { j } else { j + 1 });
        }
        assert(self@ =~= before@.remove(key));
    }

    /// Maps `key` to `value`, and hands back the value that it was mapped to before.
    pub fn insert(&mut self, key: K, value: V) -> (replaced: Option<V>)
        requires
            old(self).wf(),
        ensures
            final(self).wf(),
            final(self)@ == old(self)@.insert(key@, value),
            replaced == (if old(self)@.contains_key(key@) {
                Some(old(self)@[key@])
            } else {
                None
            }),
    {
        let replaced = self.remove(&key);
        let ghost before = *self;
        let ghost k = key@;
        self.entries.push((key, value));
        proof {
            assert(self.entries@.drop_last() =~= before.entries@);
            self.lemma_with(&before, k, value);
            assert(self@ =~= old(self)@.insert(k, value));
        }
        replaced
    }

    /// A further entry with a new key maps that key to its value.
    proof fn lemma_with(&self, before: &Self, key: K::V, value: V)
        requires
            before.wf(),
            !before@.contains_key(key),
            self.entries@.len() == before.entries@.len() + 1,
            self.entries@.drop_last() == before.entries@,
            self.entries@.last().0@ == key,
            self.entries@.last().1 == value,
        ensures
            self.wf(),
            self@ == before@.insert(key, value),
    {
        let n = before.entries@.len() as int;
        assert forall|j: int| 0 <= j < n implies #[trigger] self.entries@[j] == before.entries@[j]
            && self.entries@[j].0@ != key by {
            assert(self.entries@[j] == self.entries@.drop_last()[j]);
            before.lemma_entry(j);
        }
        assert(self.wf());
        self.lemma_entry(n);
        assert forall|k: K::V| self@.contains_key(k) <==> #[trigger] before@.insert(
            key,
            value,
        ).contains_key(k) by {
            if before@.contains_key(k) {
                let j = before.index_of(k);
                assert(self.entries@[j].0@ == k);
            }
            if self@.contains_key(k) && k != key {
                let j = self.index_of(k);
                before.lemma_entry(j);
            }
        }
        assert forall|k: K::V| #[trigger] self@.contains_key(k) implies self@[k] == before@.insert(
            key,
            value,
        )[k] by {
            if k != key {
                let j = self.index_of(k);
                self.lemma_entry(j);
                before.lemma_entry(j);
            }
        }
        assert(self@ =~= before@.insert(key, value));
    }

    /// Leaves the table empty.
    pub fn clear(&mut self)
        ensures
            final(self).wf(),
            final(self)@ == Map::<K::V, V>::empty(),
    {
        self.entries.clear();
        assert(self@ =~= Map::<K::V, V>::empty());
    }
}

} // verus!
