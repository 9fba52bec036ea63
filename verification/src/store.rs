//! A text-keyed store: the shape of every registry the contract keeps.

use vstd::prelude::*;

verus! {

/// Some entry of `entries` is filed under `key`.
pub open spec fn holds_key<V>(entries: Seq<(String, V)>, key: Seq<char>) -> bool {
    exists|i: int| 0 <= i < entries.len() && (#[trigger] entries[i]).0@ == key
}

/// An index at which `key` is filed, where there is one.
pub open spec fn slot_of<V>(entries: Seq<(String, V)>, key: Seq<char>) -> int {
    choose|i: int| 0 <= i < entries.len() && (#[trigger] entries[i]).0@ == key
}

/// No two entries share a key.
pub open spec fn keys_distinct<V>(entries: Seq<(String, V)>) -> bool {
    forall|i: int, j: int|
        0 <= i < j < entries.len() ==> (#[trigger] entries[i]).0@ != (#[trigger] entries[j]).0@
}

/// The map that a list of entries stands for: each key with the value filed
/// under it.
pub open spec fn map_of<V>(entries: Seq<(String, V)>) -> Map<Seq<char>, V> {
    Map::new(
        |key: Seq<char>| holds_key(entries, key),
        |key: Seq<char>| entries[slot_of(entries, key)].1,
    )
}

/// In a list without a repeated key, a key is filed at one index only.
proof fn lemma_slot_is_unique<V>(entries: Seq<(String, V)>, i: int)
    requires
        keys_distinct(entries),
        0 <= i < entries.len(),
    ensures
        holds_key(entries, entries[i].0@),
        slot_of(entries, entries[i].0@) == i,
{
    let key = entries[i].0@;
    let slot = slot_of(entries, key);
    assert(entries[slot].0@ == key);
    if slot < i {
        assert(entries[slot].0@ != entries[i].0@);
    } else if i < slot {
        assert(entries[i].0@ != entries[slot].0@);
    }
}

/// Writing a value at the index where its key is filed replaces the value in
/// the map and keeps the keys distinct.
proof fn lemma_replace<V>(entries: Seq<(String, V)>, i: int, key: String, value: V)
    requires
        keys_distinct(entries),
        0 <= i < entries.len(),
        entries[i].0@ == key@,
    ensures
        keys_distinct(entries.update(i, (key, value))),
        map_of(entries.update(i, (key, value))) == map_of(entries).insert(key@, value),
{
    let after = entries.update(i, (key, value));
    assert forall|a: int, b: int| 0 <= a < b < after.len() implies (#[trigger] after[a]).0@ != (
    #[trigger] after[b]).0@ by {
        assert(after[a].0@ == entries[a].0@);
        assert(after[b].0@ == entries[b].0@);
    }
    assert forall|k: Seq<char>| holds_key(after, k) == (k == key@ || holds_key(entries, k)) by {
        if holds_key(entries, k) {
            assert(after[slot_of(entries, k)].0@ == k);
        }
        if k == key@ {
            assert(after[i].0@ == k);
        }
        if holds_key(after, k) {
            assert(entries[slot_of(after, k)].0@ == k);
        }
    }
    assert forall|k: Seq<char>| holds_key(after, k) implies after[slot_of(after, k)].1 == (if k
        == key@ {
        value
    } else {
        entries[slot_of(entries, k)].1
    }) by {
        let slot = slot_of(after, k);
        lemma_slot_is_unique(after, slot);
        lemma_slot_is_unique(entries, slot);
    }
    assert(map_of(after) =~= map_of(entries).insert(key@, value));
}

/// Adding an entry under a key that is not filed adds it to the map and
/// keeps the keys distinct.
proof fn lemma_append<V>(entries: Seq<(String, V)>, key: String, value: V)
    requires
        keys_distinct(entries),
        !holds_key(entries, key@),
    ensures
        keys_distinct(entries.push((key, value))),
        map_of(entries.push((key, value))) == map_of(entries).insert(key@, value),
{
    let after = entries.push((key, value));
    let end = entries.len() as int;
    assert forall|a: int, b: int| 0 <= a < b < after.len() implies (#[trigger] after[a]).0@ != (
    #[trigger] after[b]).0@ by {
        assert(after[a].0@ == entries[a].0@);
        if b < end {
            assert(after[b].0@ == entries[b].0@);
        }
    }
    assert forall|k: Seq<char>| holds_key(after, k) == (k == key@ || holds_key(entries, k)) by {
        if holds_key(entries, k) {
            assert(after[slot_of(entries, k)].0@ == k);
        }
        if k == key@ {
            assert(after[end].0@ == k);
        }
        if holds_key(after, k) && slot_of(after, k) < end {
            assert(entries[slot_of(after, k)].0@ == k);
        }
    }
    assert forall|k: Seq<char>| holds_key(after, k) implies after[slot_of(after, k)].1 == (if k
        == key@ {
        value
    } else {
        entries[slot_of(entries, k)].1
    }) by {
        let slot = slot_of(after, k);
        lemma_slot_is_unique(after, slot);
        if slot < end {
            lemma_slot_is_unique(entries, slot);
        }
    }
    assert(map_of(after) =~= map_of(entries).insert(key@, value));
}

/// A finite map from text keys to values, held as a list of entries in which
/// no key occurs twice. Its view is the map that the list stands for.
pub struct Registry<V> {
    entries: Vec<(String, V)>,
}

impl<V> View for Registry<V> {
    type V = Map<Seq<char>, V>;

    closed spec fn view(&self) -> Map<Seq<char>, V> {
        map_of(self.entries@)
    }
}

impl<V> Registry<V> {
    #[verifier::type_invariant]
    spec fn well_formed(self) -> bool {
        keys_distinct(self.entries@)
    }

    /// The empty store.
    pub fn new() -> (store: Self)
        ensures
            store@ == Map::<Seq<char>, V>::empty(),
    {
        let store = Registry { entries: Vec::new() };
        assert(store@ =~= Map::<Seq<char>, V>::empty());
        store
    }

    /// Where `key` is filed, if anywhere.
    fn position(&self, key: &String) -> (found: Option<usize>)
        ensures
            match found {
                Some(i) => i < self.entries@.len() && self.entries@[i as int].0@ == key@,
                None => !holds_key(self.entries@, key@),
            },
    {
        let mut i: usize = 0;
        while i < self.entries.len()
            invariant
                i <= self.entries@.len(),
                forall|j: int| 0 <= j < i ==> (#[trigger] self.entries@[j]).0@ != key@,
            decreases self.entries@.len() - i,
        {
            if self.entries[i].0 == *key {
                return Some(i);
            }
            i += 1;
        }
        None
    }

    /// Whether anything is filed under `key`.
    pub fn contains_key(&self, key: &String) -> (present: bool)
        ensures
            present == self@.contains_key(key@),
    {
        self.position(key).is_some()
    }

    /// The value filed under `key`, if any.
    pub fn get(&self, key: &String) -> (found: Option<&V>)
        ensures
            match found {
                Some(value) => self@.contains_key(key@) && *value == self@[key@],
                None => !self@.contains_key(key@),
            },
    {
        match self.position(key) {
            Some(i) => {
                proof {
                    use_type_invariant(self);
                    lemma_slot_is_unique(self.entries@, i as int);
                }
                Some(&self.entries[i].1)
            },
            None => None,
        }
    }

    /// Files `value` under `key`, replacing whatever was filed there.
    pub fn insert(&mut self, key: String, value: V)
        ensures
            final(self)@ == old(self)@.insert(key@, value),
    {
        proof {
            use_type_invariant(&*self);
        }
        let found = self.position(&key);
        let mut entries: Vec<(String, V)> = Vec::new();
        std::mem::swap(&mut entries, &mut self.entries);
        match found {
            Some(i) => {
                proof {
                    lemma_replace(entries@, i as int, key, value);
                }
                entries.set(i, (key, value));
            },
            None => {
                proof {
                    lemma_append(entries@, key, value);
                }
                entries.push((key, value));
            },
        }
        self.entries = entries;
    }

    /// Gives the entries up as a list, each key once.
    pub fn into_entries(self) -> (entries: Vec<(String, V)>)
        ensures
            keys_distinct(entries@),
            map_of(entries@) == self@,
    {
        proof {
            use_type_invariant(&self);
        }
        self.entries
    }
}

} // verus!
