//! A small association table with a map as its model.
//!
//! Keys are compared by their model, so two keys with the same model are the
//! same key whatever their representation.

use vstd::prelude::*;

verus! {

/// A value with a mathematical model that copies preserve.
pub trait Modeled: Sized {
    type Model;

    /// What the value stands for.
    spec fn model(&self) -> Self::Model;

    /// A copy that stands for the same.
    fn duplicate(&self) -> (r: Self)
        ensures
            r.model() == self.model(),
    ;
}

/// A modeled value that can be compared with another by model.
pub trait Keyed: Modeled {
    /// Whether the two stand for the same.
    fn same(&self, other: &Self) -> (r: bool)
        ensures
            r == (self.model() == other.model()),
    ;
}

impl Modeled for String {
    type Model = Seq<char>;

    open spec fn model(&self) -> Seq<char> {
        self@
    }

    fn duplicate(&self) -> (r: Self) {
        self.clone()
    }
}

impl Keyed for String {
    fn same(&self, other: &Self) -> (r: bool) {
        *self == *other
    }
}

impl Modeled for u64 {
    type Model = u64;

    open spec fn model(&self) -> u64 {
        *self
    }

    fn duplicate(&self) -> (r: Self) {
        *self
    }
}

impl Modeled for () {
    type Model = ();

    open spec fn model(&self) -> () {
        ()
    }

    fn duplicate(&self) -> (r: Self) {
        ()
    }
}

/// The map that a sequence of entries stands for: a later entry for a key
/// replaces an earlier one.
pub open spec fn entries_map<K: Modeled, V: Modeled>(entries: Seq<(K, V)>) -> Map<
    K::Model,
    V::Model,
>
    decreases entries.len(),
{
    if entries.len() == 0 {
        Map::empty()
    } else {
        entries_map(entries.drop_last()).insert(
            entries.last().0.model(),
            entries.last().1.model(),
        )
    }
}

/// No two entries have the same key.
pub open spec fn distinct_keys<K: Modeled, V: Modeled>(entries: Seq<(K, V)>) -> bool {
    forall|i: int, j: int|
        0 <= i < j < entries.len() ==> (#[trigger] entries[i]).0.model() != (
        #[trigger] entries[j]).0.model()
}

proof fn lemma_absent<K: Modeled, V: Modeled>(entries: Seq<(K, V)>, key: K::Model)
    requires
        forall|i: int| 0 <= i < entries.len() ==> (#[trigger] entries[i]).0.model() != key,
    ensures
        !entries_map(entries).dom().contains(key),
    decreases entries.len(),
{
    if entries.len() > 0 {
        lemma_absent(entries.drop_last(), key);
    }
}

proof fn lemma_present<K: Modeled, V: Modeled>(entries: Seq<(K, V)>, index: int)
    requires
        distinct_keys(entries),
        0 <= index < entries.len(),
    ensures
        entries_map(entries).dom().contains(entries[index].0.model()),
        entries_map(entries)[entries[index].0.model()] == entries[index].1.model(),
    decreases entries.len(),
{
    if index < entries.len() - 1 {
        let rest = entries.drop_last();
        assert(rest[index] == entries[index]);
        assert(distinct_keys(rest)) by {
            assert forall|i: int, j: int| 0 <= i < j < rest.len() implies (
            #[trigger] rest[i]).0.model() != (#[trigger] rest[j]).0.model() by {
                assert(rest[i] == entries[i]);
                assert(rest[j] == entries[j]);
            }
        }
        lemma_present(rest, index);
        assert(entries[index].0.model() != entries.last().0.model());
    }
}

proof fn lemma_replace<K: Modeled, V: Modeled>(entries: Seq<(K, V)>, index: int, entry: (K, V))
    requires
        distinct_keys(entries),
        0 <= index < entries.len(),
        entry.0.model() == entries[index].0.model(),
    ensures
        distinct_keys(entries.update(index, entry)),
        entries_map(entries.update(index, entry)) == entries_map(entries).insert(
            entry.0.model(),
            entry.1.model(),
        ),
    decreases entries.len(),
{
    let updated = entries.update(index, entry);
    assert(distinct_keys(updated)) by {
        assert forall|i: int, j: int| 0 <= i < j < updated.len() implies (
        #[trigger] updated[i]).0.model() != (#[trigger] updated[j]).0.model() by {
            assert(updated[i].0.model() == entries[i].0.model());
            assert(updated[j].0.model() == entries[j].0.model());
        }
    }
    let rest = entries.drop_last();
    if index == entries.len() - 1 {
        assert(updated.drop_last() == rest);
        assert(entries_map(updated) == entries_map(entries).insert(
            entry.0.model(),
            entry.1.model(),
        ));
    } else {
        assert(distinct_keys(rest)) by {
            assert forall|i: int, j: int| 0 <= i < j < rest.len() implies (
            #[trigger] rest[i]).0.model() != (#[trigger] rest[j]).0.model() by {
                assert(rest[i] == entries[i]);
                assert(rest[j] == entries[j]);
            }
        }
        assert(rest[index] == entries[index]);
        lemma_replace(rest, index, entry);
        assert(updated.drop_last() == rest.update(index, entry));
        assert(updated.last() == entries.last());
        assert(entries[index].0.model() != entries.last().0.model());
        assert(entries_map(updated) == entries_map(entries).insert(
            entry.0.model(),
            entry.1.model(),
        ));
    }
}

/// An association table from keys to values.
pub struct Table<K: Keyed, V: Modeled> {
    entries: Vec<(K, V)>,
}

impl<K: Keyed, V: Modeled> Table<K, V> {
    #[verifier::type_invariant]
    spec fn keys_are_distinct(self) -> bool {
        distinct_keys(self.entries@)
    }

    /// The map from each key's model to its value's model.
    pub closed spec fn map(&self) -> Map<K::Model, V::Model> {
        entries_map(self.entries@)
    }

    /// The empty table.
    pub fn new() -> (r: Self)
        ensures
            r.map() == Map::<K::Model, V::Model>::empty(),
    {
        Table { entries: Vec::new() }
    }

    fn position(&self, key: &K) -> (r: Option<usize>)
        ensures
            r matches Some(index) ==> index < self.entries@.len()
                && self.entries@[index as int].0.model() == key.model(),
            r is None ==> forall|i: int|
                0 <= i < self.entries@.len() ==> (#[trigger] self.entries@[i]).0.model()
                    != key.model(),
    {
        let mut i: usize = 0;
        while i < self.entries.len()
            invariant
                i <= self.entries@.len(),
                forall|j: int|
                    0 <= j < i ==> (#[trigger] self.entries@[j]).0.model() != key.model(),
            decreases self.entries.len() - i,
        {
            if self.entries[i].0.same(key) {
                return Some(i);
            }
            i += 1;
        }
        None
    }

    /// Whether the table has an entry for `key`.
    pub fn contains_key(&self, key: &K) -> (r: bool)
        ensures
            r == self.map().dom().contains(key.model()),
    {
        proof {
            use_type_invariant(self);
        }
        match self.position(key) {
            Some(index) => {
                proof {
                    lemma_present(self.entries@, index as int);
                }
                true
            },
            None => {
                proof {
                    lemma_absent(self.entries@, key.model());
                }
                false
            },
        }
    }

    /// The value stored for `key`, if there is one.
    pub fn get(&self, key: &K) -> (r: Option<&V>)
        ensures
            r is Some <==> self.map().dom().contains(key.model()),
            r matches Some(value) ==> value.model() == self.map()[key.model()],
    {
        proof {
            use_type_invariant(self);
        }
        match self.position(key) {
            Some(index) => {
                proof {
                    lemma_present(self.entries@, index as int);
                }
                Some(&self.entries[index].1)
            },
            None => {
                proof {
                    lemma_absent(self.entries@, key.model());
                }
                None
            },
        }
    }

    /// Stores `value` for `key`, in place of any value stored for it before.
    pub fn insert(&mut self, key: K, value: V)
        ensures
            final(self).map() == old(self).map().insert(key.model(), value.model()),
    {
        proof {
            use_type_invariant(&*self);
        }
        let found = self.position(&key);
        let mut taken: Table<K, V> = Table::new();
        core::mem::swap(self, &mut taken);
        let mut entries = taken.entries;
        let ghost before = entries@;
        match found {
            Some(index) => {
                proof {
                    lemma_replace(before, index as int, (key, value));
                }
                entries.set(index, (key, value));
            },
            None => {
                entries.push((key, value));
                proof {
                    assert(entries@.drop_last() == before);
                    assert forall|i: int, j: int| 0 <= i < j < entries@.len() implies (
                    #[trigger] entries@[i]).0.model() != (#[trigger] entries@[j]).0.model() by {
                        if j < before.len() {
                            assert(entries@[i] == before[i]);
                            assert(entries@[j] == before[j]);
                        } else {
                            assert(entries@[i] == before[i]);
                        }
                    }
                }
            },
        }
        *self = Table { entries };
    }
}

impl<K: Keyed, V: Modeled> Modeled for Table<K, V> {
    type Model = Map<K::Model, V::Model>;

    open spec fn model(&self) -> Map<K::Model, V::Model> {
        self.map()
    }

    fn duplicate(&self) -> (r: Self) {
        proof {
            use_type_invariant(self);
        }
        let mut entries: Vec<(K, V)> = Vec::new();
        let mut i: usize = 0;
        while i < self.entries.len()
            invariant
                i <= self.entries@.len(),
                entries@.len() == i,
                forall|j: int|
                    0 <= j < i ==> (#[trigger] entries@[j]).0.model() == self.entries@[j].0.model()
                        && entries@[j].1.model() == self.entries@[j].1.model(),
            decreases self.entries.len() - i,
        {
            let key = self.entries[i].0.duplicate();
            let value = self.entries[i].1.duplicate();
            entries.push((key, value));
            i += 1;
        }
        proof {
            lemma_same_models(entries@, self.entries@);
        }
        Table { entries }
    }
}

proof fn lemma_same_models<K: Modeled, V: Modeled>(first: Seq<(K, V)>, second: Seq<(K, V)>)
    requires
        first.len() == second.len(),
        forall|j: int|
            0 <= j < first.len() ==> (#[trigger] first[j]).0.model() == second[j].0.model()
                && first[j].1.model() == second[j].1.model(),
    ensures
        entries_map(first) == entries_map(second),
        distinct_keys(second) ==> distinct_keys(first),
    decreases first.len(),
{
    if first.len() > 0 {
        assert forall|j: int| 0 <= j < first.drop_last().len() implies (
        #[trigger] first.drop_last()[j]).0.model() == second.drop_last()[j].0.model()
            && first.drop_last()[j].1.model() == second.drop_last()[j].1.model() by {
            assert(first.drop_last()[j] == first[j]);
            assert(second.drop_last()[j] == second[j]);
        }
        lemma_same_models(first.drop_last(), second.drop_last());
    }
    if distinct_keys(second) {
        assert forall|i: int, j: int| 0 <= i < j < first.len() implies (
        #[trigger] first[i]).0.model() != (#[trigger] first[j]).0.model() by {
            assert(second[i].0.model() != second[j].0.model());
        }
    }
}

} // verus!
