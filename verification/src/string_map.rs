//! Map from strings to strings.

use vstd::prelude::*;

verus! {

/// A string with the string it maps to.
pub struct Entry {
    pub key: String,
    pub value: String,
}

/// Map from strings to strings.
///
/// Entries keep the order in which their keys were first inserted.
pub struct StringMap {
    pub entries: Vec<Entry>,
}

/// Index of the first entry with a key, from an index on.
pub open spec fn entry_index(entries: Seq<Entry>, key: Seq<char>, from: int) -> Option<int>
    decreases entries.len() - from,
{
    if from >= entries.len() {
        None
    } else if entries[from].key@ == key {
        Some(from)
    } else {
        entry_index(entries, key, from + 1)
    }
}

pub proof fn lemma_entry_index(entries: Seq<Entry>, key: Seq<char>, from: int)
    requires
        0 <= from,
    ensures
        match entry_index(entries, key, from) {
            Some(i) => from <= i < entries.len() && entries[i].key@ == key && forall|j: int|
                from <= j < i ==> entries[j].key@ != key,
            None => forall|j: int| from <= j < entries.len() ==> entries[j].key@ != key,
        },
    decreases entries.len() - from,
{
    if from < entries.len() && entries[from].key@ != key {
        lemma_entry_index(entries, key, from + 1);
    }
}

impl StringMap {
    /// No key has two entries.
    pub open spec fn wf(&self) -> bool {
        forall|i: int, j: int|
            0 <= i < j < self.entries.len() ==> self.entries[i].key@ != self.entries[j].key@
    }

    /// The value that a key maps to.
    pub open spec fn lookup(&self, key: Seq<char>) -> Option<String> {
        match entry_index(self.entries@, key, 0) {
            Some(i) => Some(self.entries[i].value),
            None => None,
        }
    }

    /// The map as a mathematical map.
    pub open spec fn view(&self) -> Map<Seq<char>, Seq<char>> {
        Map::new(|key: Seq<char>| self.lookup(key) is Some, |key: Seq<char>| self.lookup(key)->0@)
    }

    /// Create an empty map.
    pub fn new() -> (r: Self)
        ensures
            r.wf(),
            r.entries@ == Seq::<Entry>::empty(),
            r@ == Map::<Seq<char>, Seq<char>>::empty(),
    {
        let r = StringMap { entries: Vec::new() };
        assert(r@ =~= Map::<Seq<char>, Seq<char>>::empty());
        r
    }

    /// Get the value of a key.
    pub fn get(&self, key: &str) -> (r: Option<&String>)
        ensures
            match r {
                Some(value) => self.lookup(key@) == Some(*value) && self@.contains_pair(
                    key@,
                    value@,
                ),
                None => self.lookup(key@) is None && !self@.contains_key(key@),
            },
    {
        let wanted: String = key.to_string();
        let mut i: usize = 0;
        while i < self.entries.len()
            invariant
                i <= self.entries.len(),
                wanted@ == key@,
                entry_index(self.entries@, key@, 0) == entry_index(self.entries@, key@, i as int),
            decreases self.entries.len() - i,
        {
            if self.entries[i].key == wanted {
                return Some(&self.entries[i].value);
            }
            i += 1;
        }
        None
    }

    /// Map a key to a value, replacing its previous value.
    pub fn insert(&mut self, key: String, value: String)
        requires
            old(self).wf(),
        ensures
            final(self).wf(),
            final(self)@ == old(self)@.insert(key@, value@),
            final(self).entries@ == (match entry_index(old(self).entries@, key@, 0) {
                Some(i) => old(self).entries@.update(
                    i,
                    (Entry { key: old(self).entries[i].key, value: value }),
                ),
                None => old(self).entries@.push((Entry { key: key, value: value })),
            }),
    {
        let ghost before = *self;
        let mut i: usize = 0;
        while i < self.entries.len()
            invariant
                i <= self.entries.len(),
                *self == before,
                before == *old(self),
                before.wf(),
                entry_index(self.entries@, key@, 0) == entry_index(self.entries@, key@, i as int),
            decreases self.entries.len() - i,
        {
            if self.entries[i].key == key {
                let kept = self.entries[i].key.clone();
                self.entries.set(i, Entry { key: kept, value });
                proof {
                    lemma_entry_index(before.entries@, key@, 0);
                    assert forall|a: int, b: int|
                        0 <= a < b < self.entries.len() implies self.entries[a].key@
                        != self.entries[b].key@ by {
                        assert(before.entries[a].key@ != before.entries[b].key@);
                    }
                    Self::lemma_insert(before, *self, key@, value@);
                }
                return;
            }
            i += 1;
        }
        proof {
            lemma_entry_index(before.entries@, key@, 0);
        }
        let ghost new_key = key@;
        self.entries.push(Entry { key, value });
        proof {
            assert forall|a: int, b: int| 0 <= a < b < self.entries.len() implies self.entries[a].key@
                != self.entries[b].key@ by {
                if b == before.entries.len() {
                    assert(self.entries[b].key@ == new_key);
                    assert(before.entries[a].key@ != new_key);
                } else {
                    assert(before.entries[a].key@ != before.entries[b].key@);
                }
            }
            Self::lemma_insert(before, *self, new_key, self.entries@.last().value@);
        }
    }

    proof fn lemma_insert(before: Self, after: Self, key: Seq<char>, value: Seq<char>)
        requires
            before.wf(),
            after.wf(),
            match entry_index(before.entries@, key, 0) {
                Some(i) => after.entries.len() == before.entries.len() && after.entries[i].key@
                    == key && after.entries[i].value@ == value && forall|j: int|
                    0 <= j < before.entries.len() && j != i ==> after.entries[j]
                        == before.entries[j],
                None => after.entries.len() == before.entries.len() + 1
                    && after.entries@.last().key@ == key && after.entries@.last().value@ == value
                    && forall|j: int|
                    0 <= j < before.entries.len() ==> after.entries[j] == before.entries[j],
            },
        ensures
            after@ == before@.insert(key, value),
    {
        let m = before@.insert(key, value);
        lemma_entry_index(before.entries@, key, 0);
        assert forall|k: Seq<char>|
            #[trigger] after@.contains_key(k) == m.contains_key(k) && (after@.contains_key(k)
                ==> after@[k] == m[k]) by {
            lemma_entry_index(before.entries@, k, 0);
            lemma_entry_index(after.entries@, k, 0);
            let a = entry_index(after.entries@, k, 0);
            let b = entry_index(before.entries@, k, 0);
            if k == key {
                match entry_index(before.entries@, key, 0) {
                    Some(i) => {
                        assert(a is Some);
                        if a->0 != i {
                            if a->0 < i {
                                assert(after.entries[a->0].key@ != after.entries[i].key@);
                            } else {
                                assert(after.entries[i].key@ != after.entries[a->0].key@);
                            }
                        }
                    },
                    None => {
                        let last = after.entries.len() - 1;
                        assert(after.entries[last].key@ == key);
                        if a->0 != last {
                            assert(after.entries[a->0] == before.entries[a->0]);
                        }
                    },
                }
            } else {
                if b is Some {
                    let j = b->0;
                    assert(after.entries[j] == before.entries[j]);
                    assert(a is Some);
                    if a->0 < j {
                        assert(after.entries[a->0].key@ != after.entries[j].key@);
                    } else if a->0 > j {
                        assert(after.entries[j].key@ != after.entries[a->0].key@);
                    }
                } else if a is Some {
                    let j = a->0;
                    if j < before.entries.len() && entry_index(before.entries@, key, 0) != Some(j) {
                        assert(after.entries[j] == before.entries[j]);
                    }
                }
            }
        }
        assert(after@ =~= m);
    }
}

/// A key maps to the value of the entry which has it, and to nothing without such an entry.
pub proof fn law_keys_map_to_their_entry(map: StringMap, key: Seq<char>, at: int)
    requires
        map.wf(),
    ensures
        0 <= at < map.entries.len() && map.entries[at].key@ == key ==> map.lookup(key) == Some(
            map.entries[at].value,
        ) && map@.contains_pair(key, map.entries[at].value@),
        map.lookup(key) is None ==> forall|i: int|
            0 <= i < map.entries.len() ==> (#[trigger] map.entries[i]).key@ != key,
        map@.contains_key(key) <==> map.lookup(key) is Some,
        map.lookup(key) matches Some(value) ==> map@[key] == value@,
{
    lemma_entry_index(map.entries@, key, 0);
    if let Some(i) = entry_index(map.entries@, key, 0) {
        if 0 <= at < map.entries.len() && map.entries[at].key@ == key && i != at {
            if i < at {
                assert(map.entries[i].key@ != map.entries[at].key@);
            } else {
                assert(map.entries[at].key@ != map.entries[i].key@);
            }
        }
    }
    assert(forall|i: int| 0 <= i < map.entries.len() ==> map.entries@[i] == #[trigger] map.entries[i]);
}

} // verus!
