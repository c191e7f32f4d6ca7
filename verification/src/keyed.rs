//! A map from strings to values, kept as a list of entries with distinct keys.
use crate::text::str_eq;
use vstd::prelude::*;

verus! {

/// The map that a list of entries describes: each key is mapped to the value
/// of the entry that holds it.
pub open spec fn entries_map<V>(e: Seq<(String, V)>) -> Map<Seq<char>, V> {
    Map::new(
        |k: Seq<char>| exists|i: int| 0 <= i < e.len() && #[trigger] e[i].0@ == k,
        |k: Seq<char>| e[choose|i: int| 0 <= i < e.len() && #[trigger] e[i].0@ == k].1,
    )
}

/// No two entries hold the same key.
pub open spec fn distinct_keys<V>(e: Seq<(String, V)>) -> bool {
    forall|i: int, j: int| 0 <= i < e.len() && 0 <= j < e.len() && i != j ==> e[i].0@ != e[j].0@
}

/// With distinct keys, the map holds each entry's key with that entry's value.
proof fn lemma_entry_value<V>(e: Seq<(String, V)>, i: int)
    requires
        distinct_keys(e),
        0 <= i < e.len(),
    ensures
        entries_map(e).contains_key(e[i].0@),
        entries_map(e)[e[i].0@] == e[i].1,
{
    let k = e[i].0@;
    assert(0 <= i < e.len() && e[i].0@ == k);
    let j = choose|j: int| 0 <= j < e.len() && #[trigger] e[j].0@ == k;
    assert(j == i);
}

/// A map from strings to values.
#[derive(Debug)]
pub struct StringMap<V> {
    entries: Vec<(String, V)>,
}

impl<V> StringMap<V> {
    #[verifier::type_invariant]
    spec fn wf(self) -> bool {
        distinct_keys(self.entries@)
    }

    /// The map, key text to value.
    pub closed spec fn map(&self) -> Map<Seq<char>, V> {
        entries_map(self.entries@)
    }

    /// An empty map.
    pub fn new() -> (m: Self)
        ensures
            m.map() == Map::<Seq<char>, V>::empty(),
    {
        let m = StringMap { entries: Vec::new() };
        assert(m.map() =~= Map::<Seq<char>, V>::empty());
        m
    }

    /// Number of keys.
    pub fn len(&self) -> (n: usize)
        ensures
            n == self.map().len(),
    {
        proof {
            use_type_invariant(self);
            self.lemma_len();
        }
        self.entries.len()
    }

    /// With distinct keys, the map has as many keys as there are entries.
    proof fn lemma_len(&self)
        requires
            distinct_keys(self.entries@),
        ensures
            self.map().len() == self.entries@.len(),
        decreases self.entries@.len(),
    {
        let e = self.entries@;
        let keys = e.map_values(|p: (String, V)| p.0@);
        assert(self.map().dom() =~= keys.to_set()) by {
            assert forall|k: Seq<char>| #[trigger] self.map().dom().contains(k) == keys.to_set().contains(k) by {
                if self.map().dom().contains(k) {
                    let i = choose|i: int| 0 <= i < e.len() && #[trigger] e[i].0@ == k;
                    assert(keys[i] == k);
                }
                if keys.to_set().contains(k) {
                    let i = choose|i: int| 0 <= i < keys.len() && keys[i] == k;
                    assert(e[i].0@ == k);
                }
            }
        }
        assert(keys.no_duplicates()) by {
            assert forall|i: int, j: int| 0 <= i < keys.len() && 0 <= j < keys.len() && i != j implies keys[i] != keys[j] by {
                assert(e[i].0@ != e[j].0@);
            }
        }
        keys.unique_seq_to_set();
    }

    /// Position of the entry holding `key`.
    fn position(&self, key: &str) -> (r: Option<usize>)
        ensures
            match r {
                Some(i) => i < self.entries@.len() && self.entries@[i as int].0@ == key@,
                None => !self.map().contains_key(key@),
            },
    {
        let mut i: usize = 0;
        while i < self.entries.len()
            invariant
                i <= self.entries@.len(),
                forall|j: int| 0 <= j < i ==> self.entries@[j].0@ != key@,
            decreases self.entries@.len() - i,
        {
            if str_eq(self.entries[i].0.as_str(), key) {
                return Some(i);
            }
            i += 1;
        }
        None
    }

    /// Is there an entry for `key`?
    pub fn contains_key(&self, key: &str) -> (b: bool)
        ensures
            b == self.map().contains_key(key@),
    {
        match self.position(key) {
            Some(i) => {
                proof {
                    use_type_invariant(self);
                    lemma_entry_value(self.entries@, i as int);
                }
                true
            },
            None => false,
        }
    }

    /// The value for `key`, if any.
    pub fn get(&self, key: &str) -> (r: Option<&V>)
        ensures
            match r {
                Some(v) => self.map().contains_key(key@) && *v == self.map()[key@],
                None => !self.map().contains_key(key@),
            },
    {
        match self.position(key) {
            Some(i) => {
                proof {
                    use_type_invariant(self);
                    lemma_entry_value(self.entries@, i as int);
                }
                Some(&self.entries[i].1)
            },
            None => None,
        }
    }

    /// Maps `key` to `value`, replacing any value it had.
    pub fn insert(&mut self, key: String, value: V)
        ensures
            final(self).map() == old(self).map().insert(key@, value),
    {
        proof {
            use_type_invariant(&*self);
        }
        let ghost k = key@;
        let ghost old_e = self.entries@;
        let pos = self.position(key.as_str());
        let mut taken = StringMap::new();
        core::mem::swap(self, &mut taken);
        let mut entries = taken.entries;
        assert(entries@ == old_e);
        match pos {
            Some(i) => {
                let ghost entry = (key, value);
                entries.set(i, (key, value));
                proof {
                    let e = entries@;
                    assert(e == old_e.update(i as int, entry));
                    assert(distinct_keys(e)) by {
                        assert forall|a: int, b: int| 0 <= a < e.len() && 0 <= b < e.len() && a != b implies e[a].0@ != e[b].0@ by {
                            assert(old_e[i as int].0@ == k);
                            if a != i && b != i {
                                assert(old_e[a].0@ != old_e[b].0@);
                            } else if a == i {
                                assert(old_e[i as int].0@ != old_e[b].0@);
                            } else {
                                assert(old_e[a].0@ != old_e[i as int].0@);
                            }
                        }
                    }
                    assert forall|x: Seq<char>| #[trigger] entries_map(e).contains_key(x) == entries_map(old_e).insert(k, entry.1).contains_key(x) by {
                        if entries_map(e).contains_key(x) {
                            let j = choose|j: int| 0 <= j < e.len() && #[trigger] e[j].0@ == x;
                            if j != i {
                                assert(old_e[j].0@ == x);
                            }
                        }
                        if entries_map(old_e).contains_key(x) {
                            let j = choose|j: int| 0 <= j < old_e.len() && #[trigger] old_e[j].0@ == x;
                            if j != i {
                                assert(e[j].0@ == x);
                            } else {
                                assert(e[i as int].0@ == x);
                            }
                        }
                        if x == k {
                            assert(e[i as int].0@ == x);
                        }
                    }
                    assert forall|x: Seq<char>| #[trigger] entries_map(e).contains_key(x) implies entries_map(e)[x] == entries_map(old_e).insert(k, entry.1)[x] by {
                        let j = choose|j: int| 0 <= j < e.len() && #[trigger] e[j].0@ == x;
                        lemma_entry_value(e, j);
                        if j != i {
                            assert(old_e[j].0@ == x);
                            lemma_entry_value(old_e, j);
                        }
                    }
                    assert(entries_map(e) =~= entries_map(old_e).insert(k, entry.1));
                }
            },
            None => {
                let ghost entry = (key, value);
                entries.push((key, value));
                proof {
                    let e = entries@;
                    assert(e == old_e.push(entry));
                    assert(forall|j: int| 0 <= j < old_e.len() ==> old_e[j].0@ != k) by {
                        assert forall|j: int| 0 <= j < old_e.len() implies old_e[j].0@ != k by {
                            if old_e[j].0@ == k {
                                assert(entries_map(old_e).contains_key(k));
                            }
                        }
                    }
                    assert(distinct_keys(e)) by {
                        assert forall|a: int, b: int| 0 <= a < e.len() && 0 <= b < e.len() && a != b implies e[a].0@ != e[b].0@ by {
                            if a < old_e.len() && b < old_e.len() {
                                assert(old_e[a].0@ != old_e[b].0@);
                            } else if a < old_e.len() {
                                assert(old_e[a].0@ != k);
                            } else {
                                assert(old_e[b].0@ != k);
                            }
                        }
                    }
                    assert forall|x: Seq<char>| #[trigger] entries_map(e).contains_key(x) == entries_map(old_e).insert(k, entry.1).contains_key(x) by {
                        if entries_map(e).contains_key(x) {
                            let j = choose|j: int| 0 <= j < e.len() && #[trigger] e[j].0@ == x;
                            if j < old_e.len() {
                                assert(old_e[j].0@ == x);
                            }
                        }
                        if entries_map(old_e).contains_key(x) {
                            let j = choose|j: int| 0 <= j < old_e.len() && #[trigger] old_e[j].0@ == x;
                            assert(e[j].0@ == x);
                        }
                        if x == k {
                            assert(e[old_e.len() as int].0@ == x);
                        }
                    }
                    assert forall|x: Seq<char>| #[trigger] entries_map(e).contains_key(x) implies entries_map(e)[x] == entries_map(old_e).insert(k, entry.1)[x] by {
                        let j = choose|j: int| 0 <= j < e.len() && #[trigger] e[j].0@ == x;
                        lemma_entry_value(e, j);
                        if j < old_e.len() {
                            assert(old_e[j].0@ == x);
                            lemma_entry_value(old_e, j);
                        }
                    }
                    assert(entries_map(e) =~= entries_map(old_e).insert(k, entry.1));
                }
            },
        }
        *self = StringMap { entries };
    }
}

impl<V> StringMap<V> {
    /// The keys of the map, each once.
    pub fn keys(&self) -> (r: Vec<String>)
        ensures
            forall|i: int| 0 <= i < r@.len() ==> self.map().contains_key(#[trigger] r@[i]@),
            forall|k: Seq<char>| #[trigger] self.map().contains_key(k) ==> exists|i: int| 0 <= i < r@.len() && #[trigger] r@[i]@ == k,
            forall|i: int, j: int| 0 <= i < r@.len() && 0 <= j < r@.len() && i != j ==> r@[i]@ != r@[j]@,
    {
        proof {
            use_type_invariant(self);
        }
        let ghost e = self.entries@;
        let mut r: Vec<String> = Vec::new();
        let mut i: usize = 0;
        while i < self.entries.len()
            invariant
                e == self.entries@,
                distinct_keys(e),
                i <= e.len(),
                r@.len() == i,
                forall|j: int| 0 <= j < i ==> (#[trigger] r@[j])@ == e[j].0@,
            decreases e.len() - i,
        {
            r.push(self.entries[i].0.clone());
            i += 1;
        }
        assert forall|j: int| 0 <= j < r@.len() implies self.map().contains_key(#[trigger] r@[j]@) by {
            assert(e[j].0@ == r@[j]@);
        }
        assert forall|k: Seq<char>| #[trigger] self.map().contains_key(k) implies exists|j: int| 0 <= j < r@.len() && #[trigger] r@[j]@ == k by {
            let j = choose|j: int| 0 <= j < e.len() && #[trigger] e[j].0@ == k;
            assert(r@[j]@ == k);
        }
        assert forall|a: int, b: int| 0 <= a < r@.len() && 0 <= b < r@.len() && a != b implies r@[a]@ != r@[b]@ by {
            assert(e[a].0@ != e[b].0@);
        }
        r
    }

    /// A map with the same keys, each mapped to what `f` gives for its value.
    pub fn map_values<F: Fn(&V) -> V>(&self, f: &F) -> (r: StringMap<V>)
        requires
            forall|v: &V| call_requires(*f, (v,)),
        ensures
            r.map().dom() == self.map().dom(),
            forall|k: Seq<char>| #[trigger] self.map().contains_key(k) ==> call_ensures(*f, (&self.map()[k],), r.map()[k]),
    {
        proof {
            use_type_invariant(self);
        }
        let ghost old_e = self.entries@;
        let mut entries: Vec<(String, V)> = Vec::new();
        let mut i: usize = 0;
        while i < self.entries.len()
            invariant
                old_e == self.entries@,
                distinct_keys(old_e),
                forall|v: &V| call_requires(*f, (v,)),
                i <= old_e.len(),
                entries@.len() == i,
                forall|j: int| 0 <= j < i ==> (#[trigger] entries@[j]).0@ == old_e[j].0@,
                forall|j: int| 0 <= j < i ==> call_ensures(*f, (&old_e[j].1,), (#[trigger] entries@[j]).1),
            decreases old_e.len() - i,
        {
            let v = f(&self.entries[i].1);
            entries.push((self.entries[i].0.clone(), v));
            i += 1;
        }
        let ghost e = entries@;
        assert(distinct_keys(e)) by {
            assert forall|a: int, b: int| 0 <= a < e.len() && 0 <= b < e.len() && a != b implies e[a].0@ != e[b].0@ by {
                assert(old_e[a].0@ != old_e[b].0@);
            }
        }
        let r = StringMap { entries };
        assert(r.map().dom() =~= self.map().dom()) by {
            assert forall|x: Seq<char>| #[trigger] r.map().dom().contains(x) == self.map().dom().contains(x) by {
                if r.map().dom().contains(x) {
                    let j = choose|j: int| 0 <= j < e.len() && #[trigger] e[j].0@ == x;
                    assert(old_e[j].0@ == x);
                }
                if self.map().dom().contains(x) {
                    let j = choose|j: int| 0 <= j < old_e.len() && #[trigger] old_e[j].0@ == x;
                    assert(e[j].0@ == x);
                }
            }
        }
        assert forall|k: Seq<char>| #[trigger] self.map().contains_key(k) implies call_ensures(*f, (&self.map()[k],), r.map()[k]) by {
            let j = choose|j: int| 0 <= j < old_e.len() && #[trigger] old_e[j].0@ == k;
            lemma_entry_value(old_e, j);
            assert(e[j].0@ == k);
            lemma_entry_value(e, j);
        }
        r
    }
}

impl<V> Default for StringMap<V> {
    fn default() -> (m: Self)
        ensures
            m.map() == Map::<Seq<char>, V>::empty(),
    {
        StringMap::new()
    }
}

} // verus!
