//! A map keyed by strings, kept as a list of entries with pairwise different keys.
//!
//! Its view is a finite `Map` from the characters of a key to the view of the
//! value stored under it.

use crate::text::same_text;
use vstd::prelude::*;

verus! {

/// A finite map from strings to values of type `V`.
#[derive(Debug)]
pub struct StringMap<V> {
    entries: Vec<(String, V)>,
}

/// No two entries share a key.
pub open spec fn distinct_keys<V>(entries: Seq<(String, V)>) -> bool {
    forall|i: int, j: int| 0 <= i < j < entries.len() ==> entries[i].0@ != entries[j].0@
}

/// The map that a list of entries stands for; a later entry overrides an
/// earlier one with the same key.
pub open spec fn entries_map<V: View>(entries: Seq<(String, V)>) -> Map<Seq<char>, V::V>
    decreases entries.len(),
{
    if entries.len() == 0 {
        Map::empty()
    } else {
        entries_map(entries.drop_last()).insert(entries.last().0@, entries.last().1@)
    }
}

/// The keys of a list of entries, in order.
pub open spec fn entries_keys<V>(entries: Seq<(String, V)>) -> Seq<Seq<char>> {
    Seq::new(entries.len(), |i: int| entries[i].0@)
}

/// Every key of the map is the key of some entry.
pub proof fn lemma_entries_map_keys<V: View>(entries: Seq<(String, V)>)
    ensures
        forall|key: Seq<char>|
            entries_map(entries).contains_key(key) <==> exists|i: int|
                0 <= i < entries.len() && #[trigger] entries[i].0@ == key,
        entries_map(entries).dom().finite(),
    decreases entries.len(),
{
    if entries.len() > 0 {
        let front = entries.drop_last();
        lemma_entries_map_keys(front);
        assert forall|key: Seq<char>|
            entries_map(entries).contains_key(key) <==> exists|i: int|
                0 <= i < entries.len() && #[trigger] entries[i].0@ == key by {
            if entries_map(entries).contains_key(key) {
                if key == entries.last().0@ {
                    assert(entries[entries.len() - 1].0@ == key);
                } else {
                    let i = choose|i: int| 0 <= i < front.len() && #[trigger] front[i].0@ == key;
                    assert(entries[i].0@ == key);
                }
            }
            if exists|i: int| 0 <= i < entries.len() && #[trigger] entries[i].0@ == key {
                let i = choose|i: int| 0 <= i < entries.len() && #[trigger] entries[i].0@ == key;
                if i < front.len() {
                    assert(front[i].0@ == key);
                }
            }
        }
    }
}

/// With pairwise different keys, each entry's value is what the map holds
/// under its key, and the map has as many keys as there are entries.
pub proof fn lemma_entries_map_values<V: View>(entries: Seq<(String, V)>)
    requires
        distinct_keys(entries),
    ensures
        forall|i: int|
            0 <= i < entries.len() ==> entries_map(entries).contains_key(#[trigger] entries[i].0@)
                && entries_map(entries)[entries[i].0@] == entries[i].1@,
        entries_map(entries).dom().len() == entries.len(),
    decreases entries.len(),
{
    if entries.len() > 0 {
        let front = entries.drop_last();
        lemma_entries_map_values(front);
        lemma_entries_map_keys(front);
        assert forall|i: int| 0 <= i < entries.len() implies entries_map(entries).contains_key(
            #[trigger] entries[i].0@,
        ) && entries_map(entries)[entries[i].0@] == entries[i].1@ by {
            if i < front.len() {
                assert(front[i].0@ == entries[i].0@);
                assert(entries[i].0@ != entries[entries.len() - 1].0@);
            }
        }
        assert(!entries_map(front).contains_key(entries.last().0@)) by {
            if entries_map(front).contains_key(entries.last().0@) {
                let i = choose|i: int|
                    0 <= i < front.len() && #[trigger] front[i].0@ == entries.last().0@;
                assert(entries[i].0@ == entries[entries.len() - 1].0@);
            }
        }
    }
}

/// With pairwise different keys, the list of keys has no duplicates and
/// holds exactly the keys of the map.
pub proof fn lemma_entries_keys<V: View>(entries: Seq<(String, V)>)
    requires
        distinct_keys(entries),
    ensures
        entries_keys(entries).no_duplicates(),
        entries_keys(entries).to_set() == entries_map(entries).dom(),
{
    lemma_entries_map_keys(entries);
    let keys = entries_keys(entries);
    assert(keys.to_set() =~= entries_map(entries).dom()) by {
        assert forall|key: Seq<char>| keys.to_set().contains(key) <==> entries_map(
            entries,
        ).dom().contains(key) by {
            if keys.contains(key) {
                let i = choose|i: int| 0 <= i < keys.len() && keys[i] == key;
                assert(entries[i].0@ == key);
            }
            if entries_map(entries).dom().contains(key) {
                let i = choose|i: int| 0 <= i < entries.len() && #[trigger] entries[i].0@ == key;
                assert(keys[i] == key);
            }
        }
    }
}

impl<V> StringMap<V> {
    #[verifier::type_invariant]
    spec fn well_formed(self) -> bool {
        distinct_keys(self.entries@)
    }

    /// The keys in the order in which [`StringMap::entry`] hands them out.
    pub closed spec fn keys(&self) -> Seq<Seq<char>> {
        entries_keys(self.entries@)
    }
}

impl<V: View> View for StringMap<V> {
    type V = Map<Seq<char>, V::V>;

    closed spec fn view(&self) -> Map<Seq<char>, V::V> {
        entries_map(self.entries@)
    }
}

impl<V: View> StringMap<V> {
    /// An empty map.
    pub fn new() -> (map: Self)
        ensures
            map@ == Map::<Seq<char>, V::V>::empty(),
            map.keys() == Seq::<Seq<char>>::empty(),
    {
        let map = StringMap { entries: Vec::new() };
        assert(map.keys() =~= Seq::<Seq<char>>::empty());
        map
    }

    /// The number of keys.
    pub fn len(&self) -> (n: usize)
        ensures
            n == self@.dom().len(),
            n == self.keys().len(),
            self@.dom().finite(),
            self.keys().no_duplicates(),
            self.keys().to_set() == self@.dom(),
    {
        proof {
            use_type_invariant(self);
            lemma_entries_map_values(self.entries@);
            lemma_entries_map_keys(self.entries@);
            lemma_entries_keys(self.entries@);
        }
        self.entries.len()
    }

    /// Whether the map holds no key.
    pub fn is_empty(&self) -> (empty: bool)
        ensures
            empty == (self@ == Map::<Seq<char>, V::V>::empty()),
    {
        proof {
            use_type_invariant(self);
            lemma_entries_map_values(self.entries@);
            lemma_entries_map_keys(self.entries@);
            if self.entries@.len() == 0 {
                assert(self@ =~= Map::<Seq<char>, V::V>::empty());
            } else {
                assert(self@.contains_key(self.entries@[0].0@));
            }
        }
        self.entries.len() == 0
    }

    /// The index of the entry with this key.
    fn position(&self, key: &str) -> (found: Option<usize>)
        ensures
            match found {
                Some(i) => i < self.entries@.len() && self.entries@[i as int].0@ == key@,
                None => forall|j: int| 0 <= j < self.entries@.len() ==> self.entries@[j].0@ != key@,
            },
    {
        let mut i: usize = 0;
        while i < self.entries.len()
            invariant
                i <= self.entries@.len(),
                forall|j: int| 0 <= j < i ==> self.entries@[j].0@ != key@,
            decreases self.entries@.len() - i,
        {
            if same_text(self.entries[i].0.as_str(), key) {
                return Some(i);
            }
            i += 1;
        }
        None
    }

    /// The value stored under `key`.
    pub fn get(&self, key: &str) -> (value: Option<&V>)
        ensures
            match value {
                Some(v) => self@.contains_key(key@) && self@[key@] == v@,
                None => !self@.contains_key(key@),
            },
    {
        proof {
            use_type_invariant(self);
            lemma_entries_map_values(self.entries@);
            lemma_entries_map_keys(self.entries@);
        }
        match self.position(key) {
            Some(i) => Some(&self.entries[i].1),
            None => None,
        }
    }

    /// Whether a value is stored under `key`.
    pub fn contains_key(&self, key: &str) -> (present: bool)
        ensures
            present == self@.contains_key(key@),
    {
        self.get(key).is_some()
    }

    /// Stores `value` under `key` and hands back the value it replaces.
    pub fn insert(&mut self, key: String, value: V) -> (previous: Option<V>)
        ensures
            final(self)@ == old(self)@.insert(key@, value@),
            match previous {
                Some(v) => old(self)@.contains_key(key@) && old(self)@[key@] == v@,
                None => !old(self)@.contains_key(key@),
            },
    {
        proof {
            use_type_invariant(&*self);
            lemma_entries_map_values(self.entries@);
            lemma_entries_map_keys(self.entries@);
        }
        let found = self.position(key.as_str());
        let mut entries = Vec::new();
        std::mem::swap(&mut entries, &mut self.entries);
        let ghost before = entries@;
        let previous = match found {
            Some(i) => {
                let removed = entries.remove(i);
                proof {
                    lemma_entries_remove(before, i as int);
                }
                Some(removed.1)
            },
            None => None,
        };
        let ghost middle = entries@;
        let ghost pushed = (key, value);
        entries.push((key, value));
        proof {
            assert(entries@.drop_last() =~= middle);
            assert(entries@.last() == pushed);
            lemma_entries_map_keys(middle);
            assert(distinct_keys(entries@)) by {
                assert forall|i: int, j: int| 0 <= i < j < entries@.len() implies entries@[i].0@
                    != entries@[j].0@ by {
                    if j == middle.len() {
                        assert(middle[i].0@ == entries@[i].0@);
                    } else {
                        assert(middle[i].0@ == entries@[i].0@);
                        assert(middle[j].0@ == entries@[j].0@);
                    }
                }
            }
            assert(entries_map(entries@) =~= entries_map(before).insert(pushed.0@, pushed.1@));
        }
        self.entries = entries;
        previous
    }

    /// Removes `key` and hands back the value that was stored under it.
    pub fn remove(&mut self, key: &str) -> (previous: Option<V>)
        ensures
            final(self)@ == old(self)@.remove(key@),
            match previous {
                Some(v) => old(self)@.contains_key(key@) && old(self)@[key@] == v@,
                None => !old(self)@.contains_key(key@),
            },
    {
        proof {
            use_type_invariant(&*self);
            lemma_entries_map_values(self.entries@);
            lemma_entries_map_keys(self.entries@);
        }
        match self.position(key) {
            Some(i) => {
                let mut entries = Vec::new();
                std::mem::swap(&mut entries, &mut self.entries);
                let ghost before = entries@;
                let removed = entries.remove(i);
                proof {
                    lemma_entries_remove(before, i as int);
                }
                self.entries = entries;
                Some(removed.1)
            },
            None => {
                assert(self@ =~= self@.remove(key@));
                None
            },
        }
    }

    /// Lays `other` over the map: every key of `other` is stored with
    /// `other`'s value, and the keys that `other` lacks keep theirs.
    pub fn overlay(&mut self, other: StringMap<V>)
        ensures
            final(self)@ == old(self)@.union_prefer_right(other@),
    {
        proof {
            use_type_invariant(&other);
        }
        let ghost goal = self@.union_prefer_right(other@);
        let mut rest = other.entries;
        while rest.len() > 0
            invariant
                distinct_keys(rest@),
                self@.union_prefer_right(entries_map(rest@)) == goal,
            decreases rest@.len(),
        {
            let ghost before = rest@;
            let ghost under = self@;
            proof {
                lemma_entries_map_keys(before.drop_last());
                assert(!entries_map(before.drop_last()).contains_key(before.last().0@)) by {
                    if entries_map(before.drop_last()).contains_key(before.last().0@) {
                        let i = choose|i: int|
                            0 <= i < before.drop_last().len() && (#[trigger] before.drop_last()[i]).0@
                                == before.last().0@;
                        assert(before[i].0@ == before[before.len() - 1].0@);
                    }
                }
            }
            match rest.pop() {
                Some((key, value)) => {
                    self.insert(key, value);
                    proof {
                        assert(rest@ =~= before.drop_last());
                        assert(self@.union_prefer_right(entries_map(rest@)) =~= under.union_prefer_right(
                            entries_map(before),
                        ));
                    }
                },
                None => {},
            }
        }
        assert(self@.union_prefer_right(entries_map(rest@)) =~= self@);
    }

    /// The entry at `index` in the map's own order, or `None` past the last one.
    pub fn entry(&self, index: usize) -> (entry: Option<(&String, &V)>)
        ensures
            match entry {
                Some((key, value)) => {
                    &&& index < self.keys().len()
                    &&& key@ == self.keys()[index as int]
                    &&& self@.contains_key(key@)
                    &&& self@[key@] == value@
                },
                None => index >= self.keys().len(),
            },
    {
        proof {
            use_type_invariant(self);
            lemma_entries_map_values(self.entries@);
        }
        if index < self.entries.len() {
            let pair = &self.entries[index];
            Some((&pair.0, &pair.1))
        } else {
            None
        }
    }
}

impl StringMap<String> {
    /// A copy of the map.
    pub fn duplicate(&self) -> (copy: Self)
        ensures
            copy@ == self@,
            copy.keys() == self.keys(),
    {
        proof {
            use_type_invariant(self);
        }
        let mut entries: Vec<(String, String)> = Vec::new();
        let mut i: usize = 0;
        while i < self.entries.len()
            invariant
                i <= self.entries@.len(),
                entries@.len() == i,
                forall|j: int|
                    0 <= j < i ==> (#[trigger] entries@[j]).0@ == self.entries@[j].0@
                        && entries@[j].1@ == self.entries@[j].1@,
            decreases self.entries@.len() - i,
        {
            let pair = &self.entries[i];
            entries.push((pair.0.clone(), pair.1.clone()));
            i += 1;
        }
        proof {
            lemma_entries_map_of_equal_views(entries@, self.entries@);
            assert(entries_keys(entries@) =~= entries_keys(self.entries@));
        }
        StringMap { entries }
    }
}

impl Clone for StringMap<String> {
    fn clone(&self) -> (copy: Self)
        ensures
            copy@ == self@,
    {
        self.duplicate()
    }
}

/// Lists whose entries agree in the views of their keys and values stand for
/// the same map, and have pairwise different keys together.
proof fn lemma_entries_map_of_equal_views<V: View>(a: Seq<(String, V)>, b: Seq<(String, V)>)
    requires
        a.len() == b.len(),
        forall|j: int| 0 <= j < a.len() ==> (#[trigger] a[j]).0@ == b[j].0@ && a[j].1@ == b[j].1@,
    ensures
        entries_map(a) == entries_map(b),
        distinct_keys(b) ==> distinct_keys(a),
    decreases a.len(),
{
    if a.len() > 0 {
        lemma_entries_map_of_equal_views(a.drop_last(), b.drop_last());
        assert(a.last() == a[a.len() - 1]);
    }
    if distinct_keys(b) {
        assert forall|i: int, j: int| 0 <= i < j < a.len() implies a[i].0@ != a[j].0@ by {
            assert(a[i].0@ == b[i].0@);
            assert(a[j].0@ == b[j].0@);
        }
    }
}

/// Taking one entry out of a list with pairwise different keys removes its
/// key from the map and leaves the keys pairwise different.
proof fn lemma_entries_remove<V: View>(entries: Seq<(String, V)>, index: int)
    requires
        distinct_keys(entries),
        0 <= index < entries.len(),
    ensures
        distinct_keys(entries.remove(index)),
        entries_map(entries.remove(index)) == entries_map(entries).remove(entries[index].0@),
{
    let rest = entries.remove(index);
    assert(distinct_keys(rest)) by {
        assert forall|i: int, j: int| 0 <= i < j < rest.len() implies rest[i].0@ != rest[j].0@ by {
            let a = if i < index { i } else { i + 1 };
            let b = if j < index { j } else { j + 1 };
            assert(rest[i] == entries[a]);
            assert(rest[j] == entries[b]);
        }
    }
    lemma_entries_map_values(entries);
    lemma_entries_map_keys(entries);
    lemma_entries_map_values(rest);
    lemma_entries_map_keys(rest);
    let gone = entries[index].0@;
    assert(entries_map(rest) =~= entries_map(entries).remove(gone)) by {
        assert forall|key: Seq<char>| entries_map(rest).contains_key(key) <==> entries_map(
            entries,
        ).remove(gone).contains_key(key) by {
            if entries_map(rest).contains_key(key) {
                let i = choose|i: int| 0 <= i < rest.len() && #[trigger] rest[i].0@ == key;
                let a = if i < index { i } else { i + 1 };
                assert(rest[i] == entries[a]);
                assert(entries[a].0@ == key);
            }
            if entries_map(entries).remove(gone).contains_key(key) {
                let a = choose|a: int| 0 <= a < entries.len() && #[trigger] entries[a].0@ == key;
                let i = if a < index { a } else { a - 1 };
                assert(rest[i] == entries[a]);
                assert(rest[i].0@ == key);
            }
        }
        assert forall|key: Seq<char>| entries_map(rest).contains_key(key) implies entries_map(
            rest,
        )[key] == entries_map(entries).remove(gone)[key] by {
            let i = choose|i: int| 0 <= i < rest.len() && #[trigger] rest[i].0@ == key;
            let a = if i < index { i } else { i + 1 };
            assert(rest[i] == entries[a]);
            assert(entries[a].0@ == key);
        }
    }
}

} // verus!
