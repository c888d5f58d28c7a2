//! A map keyed by text, in which no key occurs twice.

use vstd::prelude::*;
use crate::text::text_equal;

verus! {

/// A map from text to values. Its contents are the model `Map` given by its view.
pub struct KeyedMap<V> {
    entries: Vec<(String, V)>,
}

/// No two entries have the same key.
spec fn keys_distinct<V>(entries: Seq<(String, V)>) -> bool {
    forall|i: int, j: int|
        0 <= i < j < entries.len() ==> (#[trigger] entries[i]).0@ != (#[trigger] entries[j]).0@
}

/// The entry at `i` has the key `key`.
spec fn has_key<V>(entries: Seq<(String, V)>, key: Seq<char>, i: int) -> bool {
    0 <= i < entries.len() && entries[i].0@ == key
}

/// What a run of entries with distinct keys holds.
spec fn contents<V>(entries: Seq<(String, V)>) -> Map<Seq<char>, V> {
    Map::new(
        |key: Seq<char>| exists|i: int| has_key(entries, key, i),
        |key: Seq<char>| entries[choose|i: int| has_key(entries, key, i)].1,
    )
}

proof fn lemma_at<V>(entries: Seq<(String, V)>, key: Seq<char>, i: int)
    requires
        keys_distinct(entries),
        has_key(entries, key, i),
    ensures
        contents(entries).contains_key(key),
        contents(entries)[key] == entries[i].1,
{
    let j = choose|j: int| has_key(entries, key, j);
    assert(has_key(entries, key, j));
    if j < i {
        assert(entries[j].0@ != entries[i].0@);
    }
    if i < j {
        assert(entries[i].0@ != entries[j].0@);
    }
}

proof fn lemma_set<V>(before: Seq<(String, V)>, i: int, entry: (String, V))
    requires
        keys_distinct(before),
        has_key(before, entry.0@, i),
    ensures
        keys_distinct(before.update(i, entry)),
        contents(before.update(i, entry)) == contents(before).insert(entry.0@, entry.1),
{
    let after = before.update(i, entry);
    assert forall|a: int, b: int| 0 <= a < b < after.len() implies (#[trigger] after[a]).0@ != (
    #[trigger] after[b]).0@ by {
        assert(before[a].0@ != before[b].0@);
    }
    let wanted = contents(before).insert(entry.0@, entry.1);
    assert forall|k: Seq<char>|
        #![trigger contents(after).dom().contains(k)]
        #![trigger wanted.dom().contains(k)]
        contents(after).dom().contains(k) == wanted.dom().contains(k) && (
        contents(after).dom().contains(k) ==> contents(after)[k] == wanted[k]) by {
        if contents(after).contains_key(k) {
            let j = choose|j: int| has_key(after, k, j);
            lemma_at(after, k, j);
            assert(has_key(before, k, j));
            lemma_at(before, k, j);
        }
        if wanted.dom().contains(k) {
            if k == entry.0@ {
                lemma_at(after, k, i);
            } else {
                let j = choose|j: int| has_key(before, k, j);
                assert(has_key(after, k, j));
            }
        }
    }
    assert(contents(after) =~= wanted);
}

proof fn lemma_push<V>(before: Seq<(String, V)>, entry: (String, V))
    requires
        keys_distinct(before),
        forall|i: int| !has_key(before, entry.0@, i),
    ensures
        keys_distinct(before.push(entry)),
        contents(before.push(entry)) == contents(before).insert(entry.0@, entry.1),
{
    let after = before.push(entry);
    assert forall|a: int, b: int| 0 <= a < b < after.len() implies (#[trigger] after[a]).0@ != (
    #[trigger] after[b]).0@ by {
        if b == before.len() {
            assert(!has_key(before, entry.0@, a));
        } else {
            assert(before[a].0@ != before[b].0@);
        }
    }
    let wanted = contents(before).insert(entry.0@, entry.1);
    assert forall|k: Seq<char>|
        #![trigger contents(after).dom().contains(k)]
        #![trigger wanted.dom().contains(k)]
        contents(after).dom().contains(k) == wanted.dom().contains(k) && (
        contents(after).dom().contains(k) ==> contents(after)[k] == wanted[k]) by {
        if contents(after).contains_key(k) {
            let j = choose|j: int| has_key(after, k, j);
            lemma_at(after, k, j);
            if j < before.len() {
                assert(has_key(before, k, j));
                lemma_at(before, k, j);
            }
        }
        if wanted.dom().contains(k) {
            if k == entry.0@ {
                lemma_at(after, k, before.len() as int);
            } else {
                let j = choose|j: int| has_key(before, k, j);
                assert(has_key(after, k, j));
            }
        }
    }
    assert(contents(after) =~= wanted);
}

impl<V> View for KeyedMap<V> {
    type V = Map<Seq<char>, V>;

    closed spec fn view(&self) -> Map<Seq<char>, V> {
        contents(self.entries@)
    }
}

impl<V> KeyedMap<V> {
    #[verifier::type_invariant]
    spec fn well_formed(self) -> bool {
        keys_distinct(self.entries@)
    }

    /// A map without entries.
    pub fn new() -> (map: Self)
        ensures
            map@ == Map::<Seq<char>, V>::empty(),
    {
        let map = KeyedMap { entries: Vec::new() };
        assert(map@ =~= Map::<Seq<char>, V>::empty());
        map
    }

    /// Where the key stands.
    fn position(entries: &Vec<(String, V)>, key: &str) -> (at: Option<usize>)
        ensures
            at matches Some(i) ==> has_key(entries@, key@, i as int),
            at is None ==> forall|i: int| !has_key(entries@, key@, i),
    {
        let mut i: usize = 0;
        while i < entries.len()
            invariant
                i <= entries@.len(),
                forall|j: int| 0 <= j < i ==> !has_key(entries@, key@, j),
            decreases entries@.len() - i,
        {
            if text_equal(entries[i].0.as_str(), key) {
                return Some(i);
            }
            i += 1;
        }
        None
    }

    /// The value under `key`, where there is one.
    pub fn get(&self, key: &str) -> (value: Option<&V>)
        ensures
            value matches Some(v) ==> self@.contains_key(key@) && *v == self@[key@],
            value is None ==> !self@.contains_key(key@),
    {
        proof {
            use_type_invariant(&*self);
        }
        match Self::position(&self.entries, key) {
            Some(i) => {
                let ghost chosen = choose|j: int| has_key(self.entries@, key@, j);
                assert(has_key(self.entries@, key@, i as int));
                assert(chosen == i);
                Some(&self.entries[i].1)
            },
            None => None,
        }
    }

    /// Whether there is a value under `key`.
    pub fn contains_key(&self, key: &str) -> (found: bool)
        ensures
            found == self@.contains_key(key@),
    {
        self.get(key).is_some()
    }

    /// Puts a value under `key`, in place of the one that was there.
    pub fn insert(&mut self, key: String, value: V)
        ensures
            final(self)@ == old(self)@.insert(key@, value),
    {
        proof {
            use_type_invariant(&*self);
        }
        let mut entries: Vec<(String, V)> = Vec::new();
        std::mem::swap(&mut self.entries, &mut entries);
        let ghost before = entries@;
        match Self::position(&entries, key.as_str()) {
            Some(i) => {
                entries.set(i, (key, value));
                proof {
                    lemma_set(before, i as int, (key, value));
                }
            },
            None => {
                entries.push((key, value));
                proof {
                    lemma_push(before, (key, value));
                }
            },
        }
        self.entries = entries;
    }
}

} // verus!
