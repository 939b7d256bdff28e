//! A map from strings to values that remembers the order in which keys were
//! first inserted: a list of entries with a hash index from key to position.

use vstd::prelude::*;
use vstd::hash_map::StringHashMap;

verus! {

/// Entries keyed by distinct strings, in first-insertion order.
pub struct KeyedList<V> {
    entries: Vec<(String, V)>,
    index: StringHashMap<usize>,
}

impl<V> KeyedList<V> {
    /// The entries, in order.
    pub closed spec fn entry_seq(&self) -> Seq<(String, V)> {
        self.entries@
    }

    /// The key of each entry, in order.
    pub open spec fn keys(&self) -> Seq<Seq<char>> {
        self.entry_seq().map_values(|e: (String, V)| e.0@)
    }

    /// The index agrees with the entries: every key occurs once, at the
    /// position the index gives.
    pub closed spec fn wf(&self) -> bool {
        &&& forall|k: Seq<char>| #[trigger]
            self.index@.contains_key(k) ==> self.index@[k] < self.entries@.len()
                && self.entries@[self.index@[k] as int].0@ == k
        &&& forall|i: int|
            0 <= i < self.entries@.len() ==> #[trigger] self.index@.contains_key(self.entries@[i].0@)
                && self.index@[self.entries@[i].0@] == i
    }

    /// The entries as a map from key to value.
    pub closed spec fn view(&self) -> Map<Seq<char>, V> {
        Map::new(
            |k: Seq<char>| self.index@.contains_key(k),
            |k: Seq<char>| self.entries@[self.index@[k] as int].1,
        )
    }

    /// What every list keeps: keys are distinct, and the map holds exactly the
    /// entries.
    pub proof fn lemma_wf(&self)
        requires
            self.wf(),
        ensures
            forall|i: int, j: int|
                0 <= i < j < self.entry_seq().len() ==> self.entry_seq()[i].0@ != self.entry_seq()[j].0@,
            forall|i: int|
                0 <= i < self.entry_seq().len() ==> #[trigger] self.view().contains_key(self.entry_seq()[i].0@)
                    && self.view()[self.entry_seq()[i].0@] == self.entry_seq()[i].1,
            forall|k: Seq<char>| #[trigger]
                self.view().contains_key(k) ==> exists|i: int|
                    0 <= i < self.entry_seq().len() && self.entry_seq()[i].0@ == k,
            self.view().dom().finite(),
            self.view().dom().len() == self.entry_seq().len(),
    {
        assert forall|i: int, j: int|
            0 <= i < j < self.entry_seq().len() implies self.entry_seq()[i].0@ != self.entry_seq()[j].0@ by {
            assert(self.index@.contains_key(self.entries@[i].0@));
            assert(self.index@.contains_key(self.entries@[j].0@));
        }
        assert forall|i: int|
            0 <= i < self.entry_seq().len() implies #[trigger] self.view().contains_key(self.entry_seq()[i].0@)
                && self.view()[self.entry_seq()[i].0@] == self.entry_seq()[i].1 by {
            assert(self.index@.contains_key(self.entries@[i].0@));
        }
        assert forall|k: Seq<char>| #[trigger]
            self.view().contains_key(k) implies exists|i: int|
                0 <= i < self.entry_seq().len() && self.entry_seq()[i].0@ == k by {
            let i = self.index@[k] as int;
            assert(self.entry_seq()[i].0@ == k);
        }
        self.lemma_dom_len();
    }

    proof fn lemma_dom_len(&self)
        requires
            self.wf(),
        ensures
            self.view().dom().finite(),
            self.view().dom().len() == self.entries@.len(),
    {
        let keys = self.keys();
        assert forall|i: int, j: int| 0 <= i < j < keys.len() implies keys[i] != keys[j] by {
            assert(self.index@.contains_key(self.entries@[i].0@));
            assert(self.index@.contains_key(self.entries@[j].0@));
        }
        assert(keys.no_duplicates());
        keys.unique_seq_to_set();
        assert forall|k: Seq<char>| self.view().dom().contains(k) <==> keys.to_set().contains(k) by {
            if self.view().dom().contains(k) {
                let i = self.index@[k] as int;
                assert(keys[i] == k);
            }
            if keys.to_set().contains(k) {
                let i = choose|i: int| 0 <= i < keys.len() && keys[i] == k;
                assert(self.index@.contains_key(self.entries@[i].0@));
            }
        }
        assert(self.view().dom() =~= keys.to_set());
    }

    /// An empty list.
    pub fn new() -> (r: Self)
        ensures
            r.wf(),
            r.view() == Map::<Seq<char>, V>::empty(),
            r.entry_seq().len() == 0,
    {
        let r = KeyedList { entries: Vec::new(), index: StringHashMap::new() };
        assert(r.view() =~= Map::<Seq<char>, V>::empty());
        r
    }

    /// The number of entries.
    pub fn len(&self) -> (r: usize)
        ensures
            r == self.entry_seq().len(),
    {
        self.entries.len()
    }

    /// The value of a key.
    pub fn get(&self, key: &str) -> (r: Option<&V>)
        requires
            self.wf(),
        ensures
            r is Some <==> self.view().contains_key(key@),
            r matches Some(v) ==> *v == self.view()[key@],
    {
        match self.index.get(key) {
            Some(i) => Some(&self.entries[*i].1),
            None => None,
        }
    }

    /// Sets the value of a key: a new key goes to the end, a known key keeps
    /// its position.
    pub fn insert(&mut self, key: String, value: V)
        requires
            old(self).wf(),
        ensures
            final(self).wf(),
            final(self).view() == old(self).view().insert(key@, value),
            old(self).view().contains_key(key@) ==> final(self).entry_seq().len() == old(self).entry_seq().len(),
            !old(self).view().contains_key(key@) ==> final(self).entry_seq() == old(self).entry_seq().push((key, value)),
            forall|i: int|
                0 <= i < old(self).entry_seq().len() ==> #[trigger] final(self).entry_seq()[i].0@ == old(self).entry_seq()[i].0@,
    {
        let ghost old_view = self.view();
        match self.index.get(key.as_str()) {
            Some(i) => {
                let i = *i;
                let ghost old_entries = self.entries@;
                self.entries.set(i, (key, value));
                assert forall|k: Seq<char>| #[trigger]
                    self.index@.contains_key(k) implies self.index@[k] < self.entries@.len()
                        && self.entries@[self.index@[k] as int].0@ == k by {
                    assert(old_entries[self.index@[k] as int].0@ == k);
                }
                assert forall|j: int|
                    0 <= j < self.entries@.len() implies #[trigger] self.index@.contains_key(self.entries@[j].0@)
                        && self.index@[self.entries@[j].0@] == j by {
                    assert(self.index@.contains_key(old_entries[j].0@));
                }
            },
            None => {
                let n = self.entries.len();
                let ghost old_entries = self.entries@;
                let ghost old_index = self.index@;
                self.index.insert(key.clone(), n);
                self.entries.push((key, value));
                assert forall|k: Seq<char>| #[trigger]
                    self.index@.contains_key(k) implies self.index@[k] < self.entries@.len()
                        && self.entries@[self.index@[k] as int].0@ == k by {
                    if k != key@ {
                        assert(old_index.contains_key(k));
                    }
                }
                assert forall|j: int|
                    0 <= j < self.entries@.len() implies #[trigger] self.index@.contains_key(self.entries@[j].0@)
                        && self.index@[self.entries@[j].0@] == j by {
                    if j < n {
                        assert(old_index.contains_key(old_entries[j].0@));
                    }
                }
            },
        }
        assert(self.view() =~= old_view.insert(key@, value));
    }

    /// The entries, in order.
    pub fn entries(&self) -> (r: &Vec<(String, V)>)
        ensures
            r@ == self.entry_seq(),
    {
        &self.entries
    }

    /// The entries, in order, taken out of the list.
    pub fn into_entries(self) -> (r: Vec<(String, V)>)
        ensures
            r@ == self.entry_seq(),
    {
        self.entries
    }
}

} // verus!
