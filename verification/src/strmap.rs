//! A map from server names to values, backed by a vector of pairs with
//! pairwise distinct keys and specified against `vstd`'s mathematical
//! [`Map`].  The registry, the heartbeat supervisor and the liveness
//! monitor all keep their per-server state in one of these.

use vstd::prelude::*;

use crate::text::str_eq;

verus! {

/// The mathematical map described by an association list.
pub open spec fn assoc_map<T>(entries: Seq<(String, T)>) -> Map<Seq<char>, T>
    decreases entries.len(),
{
    if entries.len() == 0 {
        Map::empty()
    } else {
        assoc_map(entries.drop_last()).insert(entries.last().0@, entries.last().1)
    }
}

/// Pairwise distinct keys.
pub open spec fn distinct_keys<T>(entries: Seq<(String, T)>) -> bool {
    forall|i: int, j: int|
        0 <= i < j < entries.len() ==> (#[trigger] entries[i]).0@ != (#[trigger] entries[j]).0@
}

/// A key is in the map exactly when some entry carries it.
proof fn lemma_assoc_contains<T>(entries: Seq<(String, T)>, k: Seq<char>)
    ensures
        assoc_map(entries).contains_key(k) <==> (exists|i: int|
            0 <= i < entries.len() && (#[trigger] entries[i]).0@ == k),
    decreases entries.len(),
{
    if entries.len() > 0 {
        lemma_assoc_contains(entries.drop_last(), k);
        if assoc_map(entries).contains_key(k) && entries.last().0@ != k {
            let i = choose|i: int|
                0 <= i < entries.drop_last().len() && (#[trigger] entries.drop_last()[i]).0@ == k;
            assert(entries[i].0@ == k);
        }
        if exists|i: int| 0 <= i < entries.len() && (#[trigger] entries[i]).0@ == k {
            let i = choose|i: int| 0 <= i < entries.len() && (#[trigger] entries[i]).0@ == k;
            if i < entries.len() - 1 {
                assert(entries.drop_last()[i].0@ == k);
            }
        }
    }
}

/// With distinct keys, the entry carrying a key determines its value.
proof fn lemma_assoc_value<T>(entries: Seq<(String, T)>, i: int)
    requires
        distinct_keys(entries),
        0 <= i < entries.len(),
    ensures
        assoc_map(entries).contains_key(entries[i].0@),
        assoc_map(entries)[entries[i].0@] == entries[i].1,
    decreases entries.len(),
{
    if i == entries.len() - 1 {
    } else {
        lemma_assoc_value(entries.drop_last(), i);
        assert(entries.drop_last()[i] == entries[i]);
        assert(entries.last().0@ != entries[i].0@);
    }
}

/// With distinct keys, removing an entry removes exactly its key.
proof fn lemma_assoc_remove<T>(entries: Seq<(String, T)>, i: int)
    requires
        distinct_keys(entries),
        0 <= i < entries.len(),
    ensures
        assoc_map(entries.remove(i)) == assoc_map(entries).remove(entries[i].0@),
    decreases entries.len(),
{
    let k = entries[i].0@;
    if i == entries.len() - 1 {
        assert(entries.remove(i) =~= entries.drop_last());
        lemma_assoc_contains(entries.drop_last(), k);
        assert(forall|j: int|
            0 <= j < entries.drop_last().len() ==> (#[trigger] entries.drop_last()[j]).0@
                != k);
        assert(assoc_map(entries.drop_last()) =~= assoc_map(entries).remove(k));
    } else {
        let short = entries.drop_last();
        assert(forall|a: int, b: int|
            0 <= a < b < short.len() ==> (#[trigger] short[a]).0@ != (#[trigger] short[b]).0@);
        lemma_assoc_remove(short, i);
        let r = entries.remove(i);
        assert(r.drop_last() =~= short.remove(i));
        assert(r.last() == entries.last());
        assert(entries.last().0@ != k);
        assert(assoc_map(r) == assoc_map(short.remove(i)).insert(
            entries.last().0@,
            entries.last().1,
        ));
        assert(assoc_map(short).remove(k).insert(entries.last().0@, entries.last().1)
            =~= assoc_map(short).insert(entries.last().0@, entries.last().1).remove(k));
    }
}

/// A map from string keys to values of type `T`.
pub struct StrMap<T> {
    entries: Vec<(String, T)>,
}

impl<T> View for StrMap<T> {
    type V = Map<Seq<char>, T>;

    closed spec fn view(&self) -> Map<Seq<char>, T> {
        assoc_map(self.entries@)
    }
}

impl<T> StrMap<T> {
    /// Well-formedness: no key occurs twice.
    pub closed spec fn wf(&self) -> bool {
        distinct_keys(self.entries@)
    }

    /// An empty map.
    pub fn new() -> (m: Self)
        ensures
            m.wf(),
            m@ == Map::<Seq<char>, T>::empty(),
    {
        StrMap { entries: Vec::new() }
    }

    /// The index of the entry carrying `key`, if any.
    fn find(&self, key: &str) -> (r: Option<usize>)
        ensures
            r matches Some(i) ==> i < self.entries@.len() && self.entries@[i as int].0@ == key@,
            r is None ==> forall|i: int|
                0 <= i < self.entries@.len() ==> (#[trigger] self.entries@[i]).0@ != key@,
    {
        let n = self.entries.len();
        let mut i: usize = 0;
        while i < n
            invariant
                n == self.entries@.len(),
                0 <= i <= n,
                forall|j: int| 0 <= j < i ==> (#[trigger] self.entries@[j]).0@ != key@,
            decreases n - i,
        {
            if str_eq(self.entries[i].0.as_str(), key) {
                return Some(i);
            }
            i = i + 1;
        }
        None
    }

    /// Whether `key` is present.
    pub fn contains_key(&self, key: &str) -> (r: bool)
        ensures
            r == self@.contains_key(key@),
    {
        let f = self.find(key);
        proof {
            lemma_assoc_contains(self.entries@, key@);
        }
        match f {
            Some(_) => true,
            None => false,
        }
    }

    /// The value under `key`, if any.
    pub fn get(&self, key: &str) -> (r: Option<&T>)
        requires
            self.wf(),
        ensures
            r is Some <==> self@.contains_key(key@),
            r matches Some(v) ==> *v == self@[key@],
    {
        let f = self.find(key);
        proof {
            lemma_assoc_contains(self.entries@, key@);
            if let Some(i) = f {
                lemma_assoc_value(self.entries@, i as int);
            }
        }
        match f {
            Some(i) => Some(&self.entries[i].1),
            None => None,
        }
    }

    /// Inserts `value` under `key`, replacing any previous value.
    pub fn insert(&mut self, key: String, value: T)
        requires
            old(self).wf(),
        ensures
            final(self).wf(),
            final(self)@ == old(self)@.insert(key@, value),
    {
        let f = self.find(key.as_str());
        proof {
            lemma_assoc_contains(self.entries@, key@);
        }
        match f {
            Some(i) => {
                proof {
                    lemma_assoc_remove(self.entries@, i as int);
                }
                let ghost before = self.entries@;
                let _ = self.entries.remove(i);
                proof {
                    assert(forall|a: int, b: int|
                        0 <= a < b < self.entries@.len() ==> (#[trigger] self.entries@[a]).0@ != (
                        #[trigger] self.entries@[b]).0@);
                    lemma_assoc_contains(self.entries@, key@);
                    assert(!assoc_map(self.entries@).contains_key(key@));
                }
                let ghost mid = self.entries@;
                self.entries.push((key, value));
                proof {
                    assert(self.entries@.drop_last() =~= mid);
                    assert(self.entries@.last() == (key, value));
                    assert(final(self)@ =~= old(self)@.insert(key@, value));
                    assert(forall|j: int|
                        0 <= j < mid.len() ==> (#[trigger] mid[j]).0@ != key@);
                }
            },
            None => {
                let ghost mid = self.entries@;
                self.entries.push((key, value));
                proof {
                    assert(self.entries@.drop_last() =~= mid);
                    assert(self.entries@.last() == (key, value));
                    assert(final(self)@ =~= old(self)@.insert(key@, value));
                }
            },
        }
    }

    /// Removes `key`, returning its value if it was present.
    pub fn remove(&mut self, key: &str) -> (r: Option<T>)
        requires
            old(self).wf(),
        ensures
            final(self).wf(),
            final(self)@ == old(self)@.remove(key@),
            r is Some <==> old(self)@.contains_key(key@),
            r matches Some(v) ==> v == old(self)@[key@],
            !old(self)@.contains_key(key@) ==> *final(self) == *old(self),
    {
        let f = self.find(key);
        proof {
            lemma_assoc_contains(self.entries@, key@);
        }
        match f {
            Some(i) => {
                proof {
                    lemma_assoc_value(self.entries@, i as int);
                    lemma_assoc_remove(self.entries@, i as int);
                }
                let pair = self.entries.remove(i);
                proof {
                    assert(forall|a: int, b: int|
                        0 <= a < b < self.entries@.len() ==> (#[trigger] self.entries@[a]).0@ != (
                        #[trigger] self.entries@[b]).0@);
                }
                Some(pair.1)
            },
            None => {
                proof {
                    assert(final(self)@ =~= old(self)@.remove(key@));
                }
                None
            },
        }
    }

    /// Removes every entry.
    pub fn clear(&mut self)
        ensures
            final(self).wf(),
            final(self)@ == Map::<Seq<char>, T>::empty(),
    {
        self.entries.clear();
    }

    /// How many entries the map holds.
    pub fn len(&self) -> (n: usize)
        ensures
            n == self.spec_len(),
    {
        self.entries.len()
    }

    /// The number of entries.
    pub closed spec fn spec_len(&self) -> nat {
        self.entries@.len()
    }

    /// The key of the entry at position `i` (an arbitrary but fixed order).
    pub fn key_at(&self, i: usize) -> (k: &String)
        requires
            i < self.spec_len(),
        ensures
            self@.contains_key(k@),
            self.wf() ==> self@[k@] == self.spec_value_at(i as int),
            k@ == self.spec_key_at(i as int),
    {
        proof {
            lemma_assoc_contains(self.entries@, self.entries@[i as int].0@);
            if self.wf() {
                lemma_assoc_value(self.entries@, i as int);
            }
        }
        &self.entries[i].0
    }

    /// The key at position `i`.
    pub closed spec fn spec_key_at(&self, i: int) -> Seq<char> {
        self.entries@[i].0@
    }

    /// The value at position `i`.
    pub closed spec fn spec_value_at(&self, i: int) -> T {
        self.entries@[i].1
    }

    /// The value of the entry at position `i`.
    pub fn value_at(&self, i: usize) -> (v: &T)
        requires
            i < self.spec_len(),
        ensures
            *v == self.spec_value_at(i as int),
            self.wf() ==> self@.contains_key(self.spec_key_at(i as int)) && self@[self.spec_key_at(
                i as int,
            )] == *v,
    {
        proof {
            if self.wf() {
                lemma_assoc_value(self.entries@, i as int);
            }
        }
        &self.entries[i].1
    }

    /// At any position, the map holds that entry's value under its key.
    pub proof fn lemma_at(&self, i: int)
        requires
            self.wf(),
            0 <= i < self.spec_len(),
        ensures
            self@.contains_key(self.spec_key_at(i)),
            self@[self.spec_key_at(i)] == self.spec_value_at(i),
    {
        lemma_assoc_value(self.entries@, i);
    }

    /// Every key of the map is `spec_key_at` of some position.
    pub proof fn lemma_keys_covered(&self, k: Seq<char>)
        requires
            self@.contains_key(k),
        ensures
            exists|i: int| 0 <= i < self.spec_len() && self.spec_key_at(i) == k,
    {
        lemma_assoc_contains(self.entries@, k);
        let i = choose|i: int|
            0 <= i < self.entries@.len() && (#[trigger] self.entries@[i]).0@ == k;
        assert(self.spec_key_at(i) == k);
    }
}

} // verus!
