//! A string-keyed map kept as a vector of distinct keys.
//!
//! Kubernetes labels, annotations, selectors, resource quantities and
//! config data are all maps from text keys to values. `StringMap` keeps
//! them as a vector of pairs whose keys are pairwise distinct, and is
//! seen by specifications as a mathematical `Map` from the key text to
//! the value's view.
use vstd::prelude::*;

verus! {

/// The map that a sequence of key/value pairs denotes; a later pair wins
/// over an earlier one with the same key.
pub open spec fn entries_view<V: View>(s: Seq<(String, V)>) -> Map<Seq<char>, V::V>
    decreases s.len(),
{
    if s.len() == 0 {
        Map::empty()
    } else {
        entries_view(s.drop_last()).insert(s.last().0@, s.last().1@)
    }
}

/// No two pairs share a key.
pub open spec fn keys_distinct<V>(s: Seq<(String, V)>) -> bool {
    forall|i: int, j: int| 0 <= i < s.len() && 0 <= j < s.len() && i != j ==> s[i].0@ != s[j].0@
}

/// The key set of a sequence of pairs is exactly the set of its keys, and
/// with distinct keys each key maps to the value of its own pair.
proof fn lemma_entries_view<V: View>(s: Seq<(String, V)>)
    requires
        keys_distinct(s),
    ensures
        forall|k: Seq<char>|
            #[trigger] entries_view(s).contains_key(k) <==> exists|i: int|
                0 <= i < s.len() && s[i].0@ == k,
        forall|i: int|
            0 <= i < s.len() ==> entries_view(s).contains_key(#[trigger] s[i].0@)
                && entries_view(s)[s[i].0@] == s[i].1@,
    decreases s.len(),
{
    if s.len() > 0 {
        let t = s.drop_last();
        assert(keys_distinct(t));
        lemma_entries_view(t);
        assert forall|k: Seq<char>|
            #[trigger] entries_view(s).contains_key(k) implies exists|i: int|
                0 <= i < s.len() && s[i].0@ == k by {
            if k == s.last().0@ {
                assert(s[s.len() - 1].0@ == k);
            } else {
                assert(entries_view(t).contains_key(k));
                let i = choose|i: int| 0 <= i < t.len() && t[i].0@ == k;
                assert(s[i].0@ == k);
            }
        }
        assert forall|k: Seq<char>|
            (exists|i: int| 0 <= i < s.len() && s[i].0@ == k) implies #[trigger] entries_view(
            s,
        ).contains_key(k) by {
            let i = choose|i: int| 0 <= i < s.len() && s[i].0@ == k;
            if i < s.len() - 1 {
                assert(t[i].0@ == k);
            }
        }
        assert forall|i: int| 0 <= i < s.len() implies entries_view(s).contains_key(
            #[trigger] s[i].0@,
        ) && entries_view(s)[s[i].0@] == s[i].1@ by {
            if i < s.len() - 1 {
                assert(t[i] == s[i]);
                assert(s[i].0@ != s[s.len() - 1].0@);
            }
        }
    }
}

/// Replacing the pair at `i` by a pair with the same key text updates the
/// denoted map at that key.
proof fn lemma_entries_update<V: View>(s: Seq<(String, V)>, i: int, p: (String, V))
    requires
        keys_distinct(s),
        0 <= i < s.len(),
        p.0@ == s[i].0@,
    ensures
        keys_distinct(s.update(i, p)),
        entries_view(s.update(i, p)) == entries_view(s).insert(p.0@, p.1@),
    decreases s.len(),
{
    let u = s.update(i, p);
    assert(keys_distinct(u)) by {
        assert forall|a: int, b: int|
            0 <= a < u.len() && 0 <= b < u.len() && a != b implies u[a].0@ != u[b].0@ by {
            assert(u[a].0@ == s[a].0@);
            assert(u[b].0@ == s[b].0@);
        }
    }
    let t = s.drop_last();
    if i == s.len() - 1 {
        assert(u.drop_last() =~= t);
        assert(entries_view(u) =~= entries_view(s).insert(p.0@, p.1@));
    } else {
        assert(keys_distinct(t));
        lemma_entries_update(t, i, p);
        assert(u.drop_last() =~= t.update(i, p));
        assert(s.last().0@ != p.0@);
        assert(entries_view(u) =~= entries_view(s).insert(p.0@, p.1@));
    }
}

/// A text-keyed map whose keys are pairwise distinct.
#[derive(Debug)]
pub struct StringMap<V> {
    entries: Vec<(String, V)>,
}

impl<V> StringMap<V> {
    #[verifier::type_invariant]
    spec fn well_formed(self) -> bool {
        keys_distinct(self.entries@)
    }

    /// The pairs of the map, in the order their keys were first inserted.
    pub closed spec fn pairs(self) -> Seq<(String, V)> {
        self.entries@
    }
}

impl<V: View> View for StringMap<V> {
    type V = Map<Seq<char>, V::V>;

    closed spec fn view(&self) -> Map<Seq<char>, V::V> {
        entries_view(self.entries@)
    }
}

/// A map has no pairs exactly when it denotes the empty map.
pub proof fn lemma_no_pairs_iff_empty<V: View>(m: StringMap<V>)
    ensures
        (m.pairs().len() == 0) == (m@ == Map::<Seq<char>, V::V>::empty()),
{
    let s = m.entries@;
    if s.len() > 0 {
        assert(entries_view(s).contains_key(s.last().0@));
        assert(!Map::<Seq<char>, V::V>::empty().contains_key(s.last().0@));
    }
}

impl<V: View> Default for StringMap<V> {
    /// The empty map.
    fn default() -> (m: Self)
        ensures
            m@ == Map::<Seq<char>, V::V>::empty(),
            m.pairs().len() == 0,
    {
        StringMap::new()
    }
}

impl<V: View> StringMap<V> {
    /// An empty map.
    pub fn new() -> (m: Self)
        ensures
            m@ == Map::<Seq<char>, V::V>::empty(),
            m.pairs().len() == 0,
    {
        StringMap { entries: Vec::new() }
    }

    /// The map with `key` bound to `value`; an existing binding of the key
    /// is replaced in place.
    pub fn insert(self, key: String, value: V) -> (m: Self)
        ensures
            m@ == self@.insert(key@, value@),
    {
        proof {
            use_type_invariant(&self);
        }
        let mut entries = self.entries;
        let mut i: usize = 0;
        while i < entries.len()
            invariant
                0 <= i <= entries.len(),
                keys_distinct(entries@),
                entries@ == self.entries@,
                forall|j: int| 0 <= j < i ==> entries@[j].0@ != key@,
            decreases entries.len() - i,
        {
            if entries[i].0 == key {
                proof {
                    lemma_entries_update(entries@, i as int, (key, value));
                }
                entries.set(i, (key, value));
                return StringMap { entries };
            }
            i = i + 1;
        }
        let ghost before = entries@;
        entries.push((key, value));
        proof {
            assert(entries@.drop_last() =~= before);
            assert(keys_distinct(entries@));
        }
        StringMap { entries }
    }

    /// Binds `key` to `value` in place and returns the value it replaced.
    pub fn set(&mut self, key: String, value: V) -> (previous: Option<V>)
        ensures
            final(self)@ == old(self)@.insert(key@, value@),
            match previous {
                Some(v) => old(self)@.contains_key(key@) && old(self)@[key@] == v@,
                None => !old(self)@.contains_key(key@),
            },
    {
        proof {
            use_type_invariant(&*self);
            lemma_entries_view(self.entries@);
        }
        let mut entries: Vec<(String, V)> = Vec::new();
        std::mem::swap(&mut entries, &mut self.entries);
        let ghost before = entries@;
        let mut i: usize = 0;
        while i < entries.len()
            invariant
                0 <= i <= entries.len(),
                keys_distinct(entries@),
                entries@ == before,
                before == old(self).entries@,
                forall|j: int| 0 <= j < i ==> entries@[j].0@ != key@,
            decreases entries.len() - i,
        {
            if entries[i].0 == key {
                proof {
                    lemma_entries_update(entries@, i as int, (key, value));
                    lemma_entries_view(entries@);
                    assert(entries_view(entries@).contains_key(entries@[i as int].0@));
                }
                let (_, previous) = entries.remove(i);
                entries.insert(i, (key, value));
                proof {
                    assert(entries@ =~= before.update(i as int, (key, value)));
                }
                self.entries = entries;
                return Some(previous);
            }
            i = i + 1;
        }
        entries.push((key, value));
        proof {
            assert(entries@.drop_last() =~= before);
            assert(keys_distinct(entries@));
        }
        self.entries = entries;
        None
    }

    /// The value bound to `key`, if any.
    pub fn get(&self, key: &str) -> (r: Option<&V>)
        ensures
            match r {
                Some(v) => self@.contains_key(key@) && self@[key@] == v@,
                None => !self@.contains_key(key@),
            },
    {
        proof {
            use_type_invariant(self);
            lemma_entries_view(self.entries@);
        }
        let wanted = key.to_owned();
        let mut i: usize = 0;
        while i < self.entries.len()
            invariant
                0 <= i <= self.entries.len(),
                wanted@ == key@,
                forall|j: int| 0 <= j < i ==> self.entries@[j].0@ != key@,
            decreases self.entries.len() - i,
        {
            if self.entries[i].0 == wanted {
                proof {
                    use_type_invariant(self);
                    lemma_entries_view(self.entries@);
                    assert(entries_view(self.entries@).contains_key(self.entries@[i as int].0@));
                }
                return Some(&self.entries[i].1);
            }
            i = i + 1;
        }
        None
    }

    /// Whether the map binds no key.
    pub fn is_empty(&self) -> (r: bool)
        ensures
            r == (self@.dom().len() == 0),
            r == (self.pairs().len() == 0),
    {
        proof {
            use_type_invariant(self);
            lemma_entries_view(self.entries@);
            if self.entries@.len() > 0 {
                assert(self@.contains_key(self.entries@[0].0@));
                assert(self@.dom().finite()) by {
                    lemma_entries_finite(self.entries@);
                }
            } else {
                assert(self@ =~= Map::<Seq<char>, V::V>::empty());
            }
        }
        self.entries.len() == 0
    }

    /// The number of keys bound.
    pub fn len(&self) -> (n: usize)
        ensures
            n == self@.dom().len(),
            n == self.pairs().len(),
    {
        proof {
            use_type_invariant(self);
            lemma_entries_len(self.entries@);
        }
        self.entries.len()
    }

    /// The pairs of the map, in insertion order.
    pub fn entries(&self) -> (r: &Vec<(String, V)>)
        ensures
            r@ == self.pairs(),
    {
        &self.entries
    }

    /// The pairs of the map, in insertion order.
    pub fn into_entries(self) -> (r: Vec<(String, V)>)
        ensures
            r@ == self.pairs(),
            keys_distinct(r@),
            entries_view(r@) == self@,
    {
        proof {
            use_type_invariant(&self);
        }
        self.entries
    }
}

impl<V: Clone> Clone for StringMap<V> {
    /// A copy with the same keys in the same order, each value cloned.
    fn clone(&self) -> (r: Self)
        ensures
            r.pairs().len() == self.pairs().len(),
            forall|i: int|
                0 <= i < self.pairs().len() ==> (#[trigger] r.pairs()[i]).0 == self.pairs()[i].0
                    && cloned::<V>(self.pairs()[i].1, r.pairs()[i].1),
    {
        proof {
            use_type_invariant(self);
        }
        let mut entries: Vec<(String, V)> = Vec::new();
        let mut i: usize = 0;
        while i < self.entries.len()
            invariant
                0 <= i <= self.entries.len(),
                keys_distinct(self.entries@),
                entries@.len() == i,
                forall|j: int|
                    0 <= j < i ==> (#[trigger] entries@[j]).0 == self.entries@[j].0 && cloned::<V>(
                        self.entries@[j].1,
                        entries@[j].1,
                    ),
            decreases self.entries.len() - i,
        {
            let k = self.entries[i].0.clone();
            let v = self.entries[i].1.clone();
            entries.push((k, v));
            i = i + 1;
        }
        proof {
            assert(keys_distinct(entries@)) by {
                assert forall|a: int, b: int|
                    0 <= a < entries@.len() && 0 <= b < entries@.len() && a != b implies entries@[a].0@
                    != entries@[b].0@ by {
                    assert(entries@[a].0 == self.entries@[a].0);
                    assert(entries@[b].0 == self.entries@[b].0);
                }
            }
        }
        StringMap { entries }
    }
}

impl StringMap<String> {
    /// A copy with exactly the same pairs.
    pub fn duplicate(&self) -> (r: Self)
        ensures
            r.pairs() == self.pairs(),
            r@ == self@,
    {
        proof {
            use_type_invariant(self);
        }
        let mut entries: Vec<(String, String)> = Vec::new();
        let mut i: usize = 0;
        while i < self.entries.len()
            invariant
                0 <= i <= self.entries.len(),
                keys_distinct(self.entries@),
                entries@ =~= self.entries@.take(i as int),
            decreases self.entries.len() - i,
        {
            let k = self.entries[i].0.clone();
            let v = self.entries[i].1.clone();
            entries.push((k, v));
            i = i + 1;
        }
        proof {
            assert(entries@ =~= self.entries@);
        }
        StringMap { entries }
    }
}

proof fn lemma_entries_finite<V: View>(s: Seq<(String, V)>)
    ensures
        entries_view(s).dom().finite(),
    decreases s.len(),
{
    if s.len() > 0 {
        lemma_entries_finite(s.drop_last());
    }
}

proof fn lemma_entries_len<V: View>(s: Seq<(String, V)>)
    requires
        keys_distinct(s),
    ensures
        entries_view(s).dom().len() == s.len(),
    decreases s.len(),
{
    if s.len() > 0 {
        let t = s.drop_last();
        assert(keys_distinct(t));
        lemma_entries_len(t);
        lemma_entries_finite(t);
        lemma_entries_view(t);
        if entries_view(t).contains_key(s.last().0@) {
            let i = choose|i: int| 0 <= i < t.len() && t[i].0@ == s.last().0@;
            assert(s[i].0@ == s[s.len() - 1].0@);
        }
    }
}

} // verus!
