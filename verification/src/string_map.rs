//! Maps keyed by text: labels, annotations, resource quantities, Secret data.

use vstd::prelude::*;

use crate::text::same;

verus! {

/// Whether no key occurs twice among the pairs.
pub open spec fn keys_distinct<V>(pairs: Seq<(String, V)>) -> bool {
    forall|i: int, j: int|
        0 <= i < j < pairs.len() ==> (#[trigger] pairs[i]).0@ != (#[trigger] pairs[j]).0@
}

/// The pairs, as a map from key to value.
pub open spec fn pairs_map<V: DeepView>(pairs: Seq<(String, V)>) -> Map<Seq<char>, V::V>
    decreases pairs.len(),
{
    if pairs.len() == 0 {
        Map::empty()
    } else {
        pairs_map(pairs.drop_last()).insert(pairs.last().0@, pairs.last().1.deep_view())
    }
}

proof fn pairs_map_holds<V: DeepView>(pairs: Seq<(String, V)>)
    requires
        keys_distinct(pairs),
    ensures
        forall|i: int|
            0 <= i < pairs.len() ==> {
                &&& pairs_map(pairs).contains_key((#[trigger] pairs[i]).0@)
                &&& pairs_map(pairs)[pairs[i].0@] == pairs[i].1.deep_view()
            },
        forall|k: Seq<char>| #[trigger]
            pairs_map(pairs).contains_key(k) ==> exists|i: int|
                0 <= i < pairs.len() && (#[trigger] pairs[i]).0@ == k,
    decreases pairs.len(),
{
    if pairs.len() > 0 {
        let init = pairs.drop_last();
        assert(keys_distinct(init)) by {
            assert forall|i: int, j: int| 0 <= i < j < init.len() implies (#[trigger] init[i]).0@
                != (#[trigger] init[j]).0@ by {
                assert(pairs[i].0@ != pairs[j].0@);
            }
        }
        pairs_map_holds(init);
        assert forall|i: int| 0 <= i < pairs.len() implies {
            &&& pairs_map(pairs).contains_key((#[trigger] pairs[i]).0@)
            &&& pairs_map(pairs)[pairs[i].0@] == pairs[i].1.deep_view()
        } by {
            if i < init.len() {
                assert(init[i] == pairs[i]);
                assert(pairs[i].0@ != pairs[pairs.len() - 1].0@);
            }
        }
        assert forall|k: Seq<char>| #[trigger] pairs_map(pairs).contains_key(k) implies exists|
            i: int,
        | 0 <= i < pairs.len() && (#[trigger] pairs[i]).0@ == k by {
            if k == pairs.last().0@ {
                assert(pairs[pairs.len() - 1].0@ == k);
            } else {
                assert(pairs_map(init).contains_key(k));
                let i = choose|i: int| 0 <= i < init.len() && (#[trigger] init[i]).0@ == k;
                assert(pairs[i] == init[i]);
            }
        }
    }
}

/// A map whose keys are texts. No key occurs twice.
#[derive(Debug)]
pub struct KeyedMap<V> {
    entries: Vec<(String, V)>,
}

/// A map from text to text.
pub type StringMap = KeyedMap<String>;

/// A map from text to bytes.
pub type ByteMap = KeyedMap<Vec<u8>>;

impl<V: DeepView> DeepView for KeyedMap<V> {
    type V = Map<Seq<char>, V::V>;

    closed spec fn deep_view(&self) -> Map<Seq<char>, V::V> {
        pairs_map(self.entries@)
    }
}

impl<V> KeyedMap<V> {
    #[verifier::type_invariant]
    spec fn well_formed(self) -> bool {
        keys_distinct(self.entries@)
    }
}

impl<V: DeepView> KeyedMap<V> {
    /// The empty map.
    pub fn new() -> (r: Self)
        ensures
            r.deep_view() == Map::<Seq<char>, V::V>::empty(),
    {
        KeyedMap { entries: Vec::new() }
    }

    /// The pairs of the map, each key once.
    pub fn entries(&self) -> (r: &Vec<(String, V)>)
        ensures
            keys_distinct(r@),
            pairs_map(r@) == self.deep_view(),
    {
        proof {
            use_type_invariant(self);
        }
        &self.entries
    }

    /// Whether the map is empty.
    pub fn is_empty(&self) -> (r: bool)
        ensures
            r == (self.deep_view() == Map::<Seq<char>, V::V>::empty()),
    {
        proof {
            use_type_invariant(self);
            pairs_map_holds(self.entries@);
            if self.entries@.len() > 0 {
                assert(self.deep_view().contains_key(self.entries@[0].0@));
            }
        }
        self.entries.len() == 0
    }

    /// The value of a key.
    pub fn get(&self, key: &str) -> (r: Option<&V>)
        ensures
            r.deep_view() == self.deep_view().get(key@),
    {
        proof {
            use_type_invariant(self);
            pairs_map_holds(self.entries@);
        }
        let mut i: usize = 0;
        while i < self.entries.len()
            invariant
                i <= self.entries@.len(),
                keys_distinct(self.entries@),
                forall|j: int| 0 <= j < i ==> (#[trigger] self.entries@[j]).0@ != key@,
            decreases self.entries.len() - i,
        {
            if same(self.entries[i].0.as_str(), key) {
                proof {
                    pairs_map_holds(self.entries@);
                    assert(self.entries@[i as int].0@ == key@);
                }
                return Some(&self.entries[i].1);
            }
            i += 1;
        }
        None
    }

    /// Whether the map holds a key.
    pub fn contains_key(&self, key: &str) -> (r: bool)
        ensures
            r == self.deep_view().contains_key(key@),
    {
        self.get(key).is_some()
    }

    /// Sets the value of a key, replacing the one it had.
    pub fn insert(&mut self, key: String, value: V)
        ensures
            final(self).deep_view() == old(self).deep_view().insert(key@, value.deep_view()),
    {
        proof {
            use_type_invariant(&*self);
        }
        let ghost before = self.entries@;
        let mut entries: Vec<(String, V)> = Vec::new();
        core::mem::swap(&mut entries, &mut self.entries);
        proof {
            pairs_map_holds(before);
        }
        let mut i: usize = 0;
        while i < entries.len() && !same(entries[i].0.as_str(), key.as_str())
            invariant
                i <= entries@.len(),
                entries@ == before,
                forall|j: int| 0 <= j < i ==> (#[trigger] before[j]).0@ != key@,
            decreases entries.len() - i,
        {
            i += 1;
        }
        if i < entries.len() {
            entries.set(i, (key, value));
        } else {
            entries.push((key, value));
        }
        proof {
            let after = entries@;
            assert forall|a: int, b: int| 0 <= a < b < after.len() implies (#[trigger] after[a]).0@
                != (#[trigger] after[b]).0@ by {
                if a < before.len() && b < before.len() {
                    assert(before[a].0@ != before[b].0@);
                }
            }
            pairs_map_holds(after);
            let expected = pairs_map(before).insert(key@, value.deep_view());
            assert forall|k: Seq<char>| pairs_map(after).contains_key(k) == (
            #[trigger] expected.contains_key(k)) by {
                if pairs_map(after).contains_key(k) {
                    let j = choose|j: int| 0 <= j < after.len() && (#[trigger] after[j]).0@ == k;
                    if j != i {
                        assert(before[j] == after[j]);
                    }
                }
                if expected.contains_key(k) {
                    if k == key@ {
                        assert(after[i as int].0@ == k);
                    } else {
                        let j = choose|j: int|
                            0 <= j < before.len() && (#[trigger] before[j]).0@ == k;
                        assert(after[j] == before[j]);
                    }
                }
            }
            assert forall|k: Seq<char>| #[trigger] pairs_map(after).contains_key(k) implies pairs_map(
                after,
            )[k] == expected[k] by {
                let j = choose|j: int| 0 <= j < after.len() && (#[trigger] after[j]).0@ == k;
                if j != i {
                    assert(before[j] == after[j]);
                    if k == key@ {
                        assert(after[i as int].0@ == k);
                        assert(after[j].0@ != after[i as int].0@);
                    }
                }
            }
            assert(pairs_map(after) =~= expected);
        }
        self.entries = entries;
    }

    /// Sets every pair of `other`, replacing the values that its keys had.
    pub fn extend(&mut self, other: Self)
        ensures
            final(self).deep_view() == old(self).deep_view().union_prefer_right(
                other.deep_view(),
            ),
    {
        proof {
            use_type_invariant(&other);
        }
        let ghost before = self.deep_view();
        let ghost pairs = other.entries@;
        assert(pairs.take(0) =~= Seq::<(String, V)>::empty());
        assert(before.union_prefer_right(pairs_map(pairs.take(0))) =~= before);
        for pair in it: other.entries
            invariant
                it.seq() == pairs,
                self.deep_view() == before.union_prefer_right(
                    pairs_map(pairs.take(it.index() as int)),
                ),
        {
            let ghost n = it.index() as int;
            let ghost sofar = self.deep_view();
            proof {
                assert(pairs.take(n + 1).drop_last() =~= pairs.take(n));
                assert(pairs.take(n + 1).last() == pairs[n]);
            }
            self.insert(pair.0, pair.1);
            proof {
                assert(sofar.insert(pairs[n].0@, pairs[n].1.deep_view())
                    =~= before.union_prefer_right(pairs_map(pairs.take(n + 1))));
            }
        }
        assert(pairs.take(pairs.len() as int) =~= pairs);
    }
}

impl KeyedMap<String> {
    /// The map of a single pair.
    pub fn of(key: &str, value: &str) -> (r: Self)
        ensures
            r.deep_view() == Map::<Seq<char>, Seq<char>>::empty().insert(key@, value@),
    {
        let mut r: KeyedMap<String> = KeyedMap::new();
        r.insert(key.to_string(), value.to_string());
        r
    }

    /// Whether every pair of this map is a pair of the other.
    fn within(&self, other: &Self) -> (r: bool)
        ensures
            r == self.deep_view().submap_of(other.deep_view()),
    {
        proof {
            use_type_invariant(self);
            pairs_map_holds(self.entries@);
        }
        let mut i: usize = 0;
        while i < self.entries.len()
            invariant
                i <= self.entries@.len(),
                keys_distinct(self.entries@),
                forall|j: int|
                    0 <= j < i ==> other.deep_view().get((#[trigger] self.entries@[j]).0@) == Some(
                        self.entries@[j].1@,
                    ),
            decreases self.entries.len() - i,
        {
            let found = match other.get(self.entries[i].0.as_str()) {
                Some(v) => same(v.as_str(), self.entries[i].1.as_str()),
                None => false,
            };
            if !found {
                proof {
                    pairs_map_holds(self.entries@);
                    let k = self.entries@[i as int].0@;
                    assert(self.deep_view().contains_key(k));
                }
                return false;
            }
            i += 1;
        }
        proof {
            assert forall|k: Seq<char>| #[trigger] self.deep_view().contains_key(k) implies {
                &&& other.deep_view().contains_key(k)
                &&& self.deep_view()[k] == other.deep_view()[k]
            } by {
                let j = choose|j: int|
                    0 <= j < self.entries@.len() && (#[trigger] self.entries@[j]).0@ == k;
                assert(other.deep_view().get(self.entries@[j].0@) == Some(self.entries@[j].1@));
            }
        }
        true
    }

    /// Whether the two maps hold the same pairs.
    pub fn same_as(&self, other: &Self) -> (r: bool)
        ensures
            r == (self.deep_view() == other.deep_view()),
    {
        let forth = self.within(other);
        let back = other.within(self);
        proof {
            if forth && back {
                assert forall|k: Seq<char>| self.deep_view().dom().contains(k)
                    == other.deep_view().dom().contains(k) by {
                    assert(self.deep_view().dom().contains(k) ==> other.deep_view().dom().contains(k));
                    assert(other.deep_view().dom().contains(k) ==> self.deep_view().dom().contains(k));
                }
                assert(self.deep_view() =~= other.deep_view());
            }
        }
        forth && back
    }
}

impl Clone for KeyedMap<String> {
    fn clone(&self) -> (r: Self)
        ensures
            r.deep_view() == self.deep_view(),
    {
        proof {
            use_type_invariant(self);
        }
        let mut entries: Vec<(String, String)> = Vec::new();
        let mut i: usize = 0;
        while i < self.entries.len()
            invariant
                i <= self.entries@.len(),
                entries@ == self.entries@.take(i as int),
            decreases self.entries.len() - i,
        {
            entries.push((self.entries[i].0.clone(), self.entries[i].1.clone()));
            i += 1;
        }
        assert(entries@ =~= self.entries@);
        KeyedMap { entries }
    }
}

impl PartialEq for KeyedMap<String> {
    fn eq(&self, other: &Self) -> (r: bool) {
        self.same_as(other)
    }
}

impl vstd::std_specs::cmp::PartialEqSpecImpl for KeyedMap<String> {
    open spec fn obeys_eq_spec() -> bool {
        true
    }

    open spec fn eq_spec(&self, other: &Self) -> bool {
        self.deep_view() == other.deep_view()
    }
}

impl<V: DeepView> Default for KeyedMap<V> {
    fn default() -> (r: Self)
        ensures
            r.deep_view() == Map::<Seq<char>, V::V>::empty(),
    {
        KeyedMap::new()
    }
}

// ── Laws ────────────────────────────────────────────────────────────────────
/// What was set under a key is what is found there, and what was under other keys stays.
pub proof fn set_entries_are_found(m: &mut StringMap, key: String, value: String, other: Seq<char>)
    requires
        call_ensures(KeyedMap::<String>::insert, (m, key, value), ()),
    ensures
        final(m).deep_view().get(key@) == Some(value@),
        other != key@ ==> final(m).deep_view().get(other) == old(m).deep_view().get(other),
{
}

/// Of two maps, the entries of the one that comes later win, and the others of the first
/// stay.
pub proof fn later_entries_win(m: &mut StringMap, other: StringMap, key: Seq<char>)
    requires
        call_ensures(KeyedMap::<String>::extend, (m, other), ()),
    ensures
        other.deep_view().contains_key(key) ==> final(m).deep_view().get(key)
            == other.deep_view().get(key),
        !other.deep_view().contains_key(key) ==> final(m).deep_view().get(key)
            == old(m).deep_view().get(key),
{
}

/// A map of one pair holds that pair alone, and an entry is found by its own key.
pub proof fn entries_are_found_by_key(
    key: &str,
    value: &str,
    one: StringMap,
    m: StringMap,
    found: Option<&String>,
    there: bool,
)
    requires
        call_ensures(KeyedMap::<String>::of, (key, value), one),
        call_ensures(KeyedMap::<String>::get, (&m, key), found),
        call_ensures(KeyedMap::<String>::contains_key, (&m, key), there),
    ensures
        forall|k: Seq<char>| #[trigger] one.deep_view().contains_key(k) <==> k == key@,
        one.deep_view()[key@] == value@,
        there <==> m.deep_view().contains_key(key@),
        found is Some <==> m.deep_view().contains_key(key@),
        found matches Some(text) ==> text@ == m.deep_view()[key@],
{
    assert(found is Some ==> found.deep_view() == Some(found->0@));
}

} // verus!
