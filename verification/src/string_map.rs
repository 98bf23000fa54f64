//! A map from strings to values, kept as a list of entries with distinct keys.

use vstd::prelude::*;

use crate::text::same_text;

verus! {

/// No two entries have the same key.
pub open spec fn distinct_keys<V>(entries: Seq<(String, V)>) -> bool {
    forall|i: int, j: int|
        0 <= i < j < entries.len() ==> (#[trigger] entries[i]).0@ != (#[trigger] entries[j]).0@
}

/// The map that a list of entries stands for; of two entries with one key the later counts.
pub open spec fn entries_map<V: DeepView>(entries: Seq<(String, V)>) -> Map<Seq<char>, V::V>
    decreases entries.len(),
{
    if entries.len() == 0 {
        Map::empty()
    } else {
        entries_map(entries.drop_last()).insert(
            entries.last().0@,
            entries.last().1.deep_view(),
        )
    }
}

proof fn lemma_entry_in_map<V: DeepView>(entries: Seq<(String, V)>, i: int)
    requires
        distinct_keys(entries),
        0 <= i < entries.len(),
    ensures
        entries_map(entries).contains_key(entries[i].0@),
        entries_map(entries)[entries[i].0@] == entries[i].1.deep_view(),
    decreases entries.len(),
{
    if i < entries.len() - 1 {
        lemma_entry_in_map(entries.drop_last(), i);
        assert(entries.drop_last()[i] == entries[i]);
    }
}

proof fn lemma_key_has_entry<V: DeepView>(entries: Seq<(String, V)>, key: Seq<char>)
    requires
        entries_map(entries).contains_key(key),
    ensures
        exists|i: int| 0 <= i < entries.len() && (#[trigger] entries[i]).0@ == key,
    decreases entries.len(),
{
    if entries.last().0@ != key {
        lemma_key_has_entry(entries.drop_last(), key);
        let i = choose|i: int|
            0 <= i < entries.drop_last().len() && (#[trigger] entries.drop_last()[i]).0@ == key;
        assert(entries[i].0@ == key);
    } else {
        assert(entries[entries.len() - 1].0@ == key);
    }
}

proof fn lemma_replace_entry<V: DeepView>(entries: Seq<(String, V)>, i: int, entry: (String, V))
    requires
        distinct_keys(entries),
        0 <= i < entries.len(),
        entries[i].0@ == entry.0@,
    ensures
        distinct_keys(entries.update(i, entry)),
        entries_map(entries.update(i, entry)) == entries_map(entries).insert(
            entry.0@,
            entry.1.deep_view(),
        ),
    decreases entries.len(),
{
    let updated = entries.update(i, entry);
    if i == entries.len() - 1 {
        assert(updated.drop_last() =~= entries.drop_last());
        assert(entries_map(updated) =~= entries_map(entries).insert(
            entry.0@,
            entry.1.deep_view(),
        ));
    } else {
        let front = entries.drop_last();
        lemma_replace_entry(front, i, entry);
        assert(updated.drop_last() =~= front.update(i, entry));
        assert(updated.last() == entries.last());
        assert(entries[i].0@ != entries[entries.len() - 1].0@);
        assert(entries_map(updated) =~= entries_map(entries).insert(
            entry.0@,
            entry.1.deep_view(),
        ));
    }
}

/// A map with string keys. Each key has one entry.
#[derive(Debug)]
pub struct StringMap<V> {
    entries: Vec<(String, V)>,
}

impl<V: DeepView> View for StringMap<V> {
    type V = Map<Seq<char>, V::V>;

    closed spec fn view(&self) -> Map<Seq<char>, V::V> {
        entries_map(self.entries@)
    }
}

impl<V: DeepView> DeepView for StringMap<V> {
    type V = Map<Seq<char>, V::V>;

    open spec fn deep_view(&self) -> Map<Seq<char>, V::V> {
        self.view()
    }
}

impl<V> StringMap<V> {
    #[verifier::type_invariant]
    spec fn keys_are_distinct(self) -> bool {
        distinct_keys(self.entries@)
    }
}

impl<V: DeepView> StringMap<V> {
    /// The empty map.
    pub fn new() -> (r: Self)
        ensures
            r@ == Map::<Seq<char>, V::V>::empty(),
    {
        StringMap { entries: Vec::new() }
    }

    /// The map of a list of entries; of two entries with one key the later counts.
    pub fn from_entries(entries: Vec<(String, V)>) -> (r: Self)
        ensures
            r@ == entries_map(entries@),
    {
        let mut r = StringMap::new();
        for entry in it: entries
            invariant
                it.seq() == entries@,
                r@ == entries_map(entries@.take(it.index() as int)),
        {
            assert(entries@.take(it.index() + 1).drop_last() =~= entries@.take(it.index() as int));
            r.insert(entry.0, entry.1);
        }
        assert(entries@.take(entries@.len() as int) =~= entries@);
        r
    }

    /// The entries of the map, one for each key, in an order that carries no meaning.
    pub fn into_entries(self) -> (r: Vec<(String, V)>)
        ensures
            distinct_keys(r@),
            entries_map(r@) == self@,
    {
        proof {
            use_type_invariant(&self);
        }
        self.entries
    }

    fn position(&self, key: &str) -> (r: Option<usize>)
        ensures
            match r {
                Some(i) => i < self.entries@.len() && self.entries@[i as int].0@ == key@,
                None => forall|i: int|
                    0 <= i < self.entries@.len() ==> (#[trigger] self.entries@[i]).0@ != key@,
            },
    {
        let mut i: usize = 0;
        while i < self.entries.len()
            invariant
                i <= self.entries@.len(),
                forall|j: int| 0 <= j < i ==> (#[trigger] self.entries@[j]).0@ != key@,
            decreases self.entries@.len() - i,
        {
            if same_text(self.entries[i].0.as_str(), key) {
                return Some(i);
            }
            i = i + 1;
        }
        None
    }

    /// The value under `key`, if there is one.
    pub fn get(&self, key: &str) -> (r: Option<&V>)
        ensures
            match r {
                Some(value) => self@.contains_key(key@) && value.deep_view() == self@[key@],
                None => !self@.contains_key(key@),
            },
    {
        proof {
            use_type_invariant(self);
        }
        match self.position(key) {
            Some(i) => {
                proof {
                    lemma_entry_in_map(self.entries@, i as int);
                }
                Some(&self.entries[i].1)
            },
            None => {
                proof {
                    if self@.contains_key(key@) {
                        lemma_key_has_entry(self.entries@, key@);
                    }
                }
                None
            },
        }
    }

    /// Puts `value` under `key`, in place of what stood there.
    pub fn insert(&mut self, key: String, value: V)
        ensures
            final(self)@ == old(self)@.insert(key@, value.deep_view()),
    {
        proof {
            use_type_invariant(&*self);
        }
        let found = self.position(key.as_str());
        let mut entries: Vec<(String, V)> = Vec::new();
        std::mem::swap(&mut entries, &mut self.entries);
        let ghost before = entries@;
        let ghost entry = (key, value);
        match found {
            Some(i) => {
                proof {
                    lemma_replace_entry(before, i as int, entry);
                }
                entries.set(i, (key, value));
            },
            None => {
                entries.push((key, value));
                assert(entries@.drop_last() =~= before);
            },
        }
        self.entries = entries;
    }
}

/// A list of entries stands for a map with no other keys than those of the entries.
pub proof fn law_map_keys_come_from_entries<V: DeepView>(
    entries: Seq<(String, V)>,
    key: Seq<char>,
)
    requires
        forall|i: int| 0 <= i < entries.len() ==> (#[trigger] entries[i]).0@ != key,
    ensures
        !entries_map(entries).contains_key(key),
{
    if entries_map(entries).contains_key(key) {
        lemma_key_has_entry(entries, key);
    }
}

/// In the map for a list of entries a key has the value of the last entry for it.
pub proof fn law_last_entry_counts<V: DeepView>(entries: Seq<(String, V)>, i: int)
    requires
        0 <= i < entries.len(),
        forall|later: int|
            i < later < entries.len() ==> (#[trigger] entries[later]).0@ != entries[i].0@,
    ensures
        entries_map(entries).contains_key(entries[i].0@),
        entries_map(entries)[entries[i].0@] == entries[i].1.deep_view(),
    decreases entries.len(),
{
    if i < entries.len() - 1 {
        let front = entries.drop_last();
        assert(entries[entries.len() - 1].0@ != entries[i].0@);
        assert(front[i] == entries[i]);
        law_last_entry_counts(front, i);
    }
}

/// Two entries of a list with distinct keys have different keys.
pub proof fn law_distinct_keys_differ<V>(entries: Seq<(String, V)>, i: int, j: int)
    requires
        distinct_keys(entries),
        0 <= i < entries.len(),
        0 <= j < entries.len(),
        i != j,
    ensures
        entries[i].0@ != entries[j].0@,
{
}

} // verus!
