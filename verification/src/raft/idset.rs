//! Sets of node ids, kept in ascending order.
use vstd::prelude::*;

verus! {

/// The ids are in strictly ascending order.
pub open spec fn strictly_ascending(s: Seq<u64>) -> bool {
    forall|i: int, j: int| 0 <= i < j < s.len() ==> s[i] < s[j]
}

/// The set of ids a sequence lists.
pub open spec fn seq_ids(s: Seq<u64>) -> Set<u64> {
    Set::new(|x: u64| s.contains(x))
}

/// A set of node ids, listed in ascending order.
#[derive(Debug)]
pub struct IdSet {
    ids: Vec<u64>,
}

impl View for IdSet {
    type V = Set<u64>;

    closed spec fn view(&self) -> Set<u64> {
        seq_ids(self.ids@)
    }
}

impl IdSet {
    #[verifier::type_invariant]
    spec fn well_formed(self) -> bool {
        strictly_ascending(self.ids@)
    }

    /// The ids in ascending order.
    pub closed spec fn seq(self) -> Seq<u64> {
        self.ids@
    }

    /// The empty set.
    pub fn new() -> (s: Self)
        ensures
            s@ == Set::<u64>::empty(),
            s.seq().len() == 0,
    {
        let s = IdSet { ids: Vec::new() };
        proof {
            assert(s@ =~= Set::<u64>::empty());
        }
        s
    }

    /// The ids in ascending order; they list the set, each once.
    pub fn ids(&self) -> (r: &Vec<u64>)
        ensures
            r@ == self.seq(),
            strictly_ascending(r@),
            seq_ids(r@) == self@,
    {
        proof {
            use_type_invariant(self);
        }
        &self.ids
    }

    /// The number of ids.
    pub fn len(&self) -> (n: usize)
        ensures
            n == self@.len(),
            n == self.seq().len(),
    {
        proof {
            use_type_invariant(self);
            lemma_ascending_len(self.ids@);
        }
        self.ids.len()
    }

    /// The position of the first id that is at least `x`.
    fn position(ids: &Vec<u64>, x: u64) -> (p: usize)
        requires
            strictly_ascending(ids@),
        ensures
            p <= ids@.len(),
            forall|i: int| 0 <= i < p ==> ids@[i] < x,
            forall|i: int| p <= i < ids@.len() ==> ids@[i] >= x,
    {
        let mut p: usize = 0;
        while p < ids.len() && ids[p] < x
            invariant
                strictly_ascending(ids@),
                p <= ids@.len(),
                forall|i: int| 0 <= i < p ==> ids@[i] < x,
            decreases ids@.len() - p,
        {
            p = p + 1;
        }
        proof {
            if p < ids@.len() {
                assert forall|i: int| p <= i < ids@.len() implies ids@[i] >= x by {
                    if i > p {
                        assert(ids@[p as int] < ids@[i]);
                    }
                }
            }
        }
        p
    }

    /// Whether `x` is in the set.
    pub fn contains(&self, x: u64) -> (r: bool)
        ensures
            r == self@.contains(x),
    {
        proof {
            use_type_invariant(self);
        }
        let p = IdSet::position(&self.ids, x);
        let r = p < self.ids.len() && self.ids[p] == x;
        proof {
            if !r && self.ids@.contains(x) {
                let i = choose|i: int| 0 <= i < self.ids@.len() && self.ids@[i] == x;
                if i < p {
                } else {
                    assert(self.ids@[i] >= x);
                    if i > p {
                        assert(self.ids@[p as int] < self.ids@[i]);
                    }
                }
            }
        }
        r
    }

    /// Adds `x`.
    pub fn insert(&mut self, x: u64)
        ensures
            final(self)@ == old(self)@.insert(x),
    {
        proof {
            use_type_invariant(&*self);
        }
        let mut ids: Vec<u64> = Vec::new();
        std::mem::swap(&mut ids, &mut self.ids);
        let ghost s = ids@;
        let p = IdSet::position(&ids, x);
        if p < ids.len() && ids[p] == x {
            proof {
                assert(seq_ids(s).insert(x) =~= seq_ids(s));
            }
        } else {
            ids.insert(p, x);
            proof {
                let t = ids@;
                assert(t =~= s.insert(p as int, x));
                assert forall|i: int, j: int| 0 <= i < j < t.len() implies t[i] < t[j] by {
                    if j < p {
                    } else if j == p {
                    } else if i < p {
                        assert(s[j - 1] >= x);
                    } else if i == p {
                        assert(s[j - 1] >= x);
                        assert(s[p as int] != x);
                        if j - 1 > p {
                            assert(s[p as int] < s[j - 1]);
                        }
                    } else {
                        assert(s[i - 1] < s[j - 1]);
                    }
                }
                assert forall|y: u64| #[trigger] seq_ids(t).contains(y) <==> seq_ids(s).insert(
                    x,
                ).contains(y) by {
                    if s.contains(y) {
                        let i = choose|i: int| 0 <= i < s.len() && s[i] == y;
                        if i < p {
                            assert(t[i] == y);
                        } else {
                            assert(t[i + 1] == y);
                        }
                    }
                    if y == x {
                        assert(t[p as int] == y);
                    }
                    if t.contains(y) && y != x {
                        let i = choose|i: int| 0 <= i < t.len() && t[i] == y;
                        if i < p {
                            assert(s[i] == y);
                        } else {
                            assert(i != p);
                            assert(s[i - 1] == y);
                        }
                    }
                }
                assert(seq_ids(t) =~= seq_ids(s).insert(x));
            }
        }
        self.ids = ids;
    }

    /// The set of the given ids.
    pub fn from_ids(v: &Vec<u64>) -> (s: Self)
        ensures
            s@ == seq_ids(v@),
    {
        let mut s = IdSet::new();
        let mut i: usize = 0;
        while i < v.len()
            invariant
                0 <= i <= v@.len(),
                s@ == seq_ids(v@.take(i as int)),
            decreases v@.len() - i,
        {
            let ghost before = s@;
            s.insert(v[i]);
            proof {
                let t0 = v@.take(i as int);
                let t1 = v@.take(i + 1);
                assert forall|y: u64| #[trigger] seq_ids(t1).contains(y) <==> before.insert(
                    v@[i as int],
                ).contains(y) by {
                    if t0.contains(y) {
                        let j = choose|j: int| 0 <= j < t0.len() && t0[j] == y;
                        assert(t1[j] == y);
                    }
                    if t1.contains(y) && y != v@[i as int] {
                        let j = choose|j: int| 0 <= j < t1.len() && t1[j] == y;
                        assert(j != i);
                        assert(t0[j] == y);
                    }
                    if y == v@[i as int] {
                        assert(t1[i as int] == y);
                    }
                }
                assert(seq_ids(t1) =~= before.insert(v@[i as int]));
            }
            i = i + 1;
        }
        proof {
            assert(v@.take(v@.len() as int) =~= v@);
        }
        s
    }

    /// The ids of this set that are not in `other`, in ascending order.
    pub fn difference(&self, other: &IdSet) -> (d: IdSet)
        ensures
            d@ == self@.difference(other@),
    {
        proof {
            use_type_invariant(self);
        }
        let mut out: Vec<u64> = Vec::new();
        let mut i: usize = 0;
        while i < self.ids.len()
            invariant
                0 <= i <= self.ids@.len(),
                strictly_ascending(self.ids@),
                strictly_ascending(out@),
                forall|k: int| #![trigger out@[k]] 0 <= k < out@.len() ==> exists|j: int|
                    0 <= j < i && #[trigger] self.ids@[j] == out@[k],
                seq_ids(out@) == seq_ids(self.ids@.take(i as int)).difference(other@),
            decreases self.ids@.len() - i,
        {
            let x = self.ids[i];
            let keep = !other.contains(x);
            let ghost before = out@;
            let ghost t0 = self.ids@.take(i as int);
            let ghost t1 = self.ids@.take(i + 1);
            if keep {
                out.push(x);
            }
            proof {
                assert forall|y: u64| #[trigger] seq_ids(t1).contains(y) <==> (seq_ids(t0).contains(y)
                    || y == x) by {
                    if t0.contains(y) {
                        let j = choose|j: int| 0 <= j < t0.len() && t0[j] == y;
                        assert(t1[j] == y);
                    }
                    if t1.contains(y) && y != x {
                        let j = choose|j: int| 0 <= j < t1.len() && t1[j] == y;
                        assert(j != i);
                        assert(t0[j] == y);
                    }
                    if y == x {
                        assert(t1[i as int] == y);
                    }
                }
                if keep {
                    assert forall|a: int, b: int| 0 <= a < b < out@.len() implies out@[a] < out@[b] by {
                        if b == out@.len() - 1 {
                            let j = choose|j: int| 0 <= j < i && #[trigger] self.ids@[j] == out@[a];
                            assert(self.ids@[j] < self.ids@[i as int]);
                        }
                    }
                    assert forall|k: int| #![trigger out@[k]] 0 <= k < out@.len() implies exists|j: int|
                        0 <= j < i + 1 && #[trigger] self.ids@[j] == out@[k] by {
                        if k == out@.len() - 1 {
                            assert(self.ids@[i as int] == out@[k]);
                        } else {
                            let j = choose|j: int| 0 <= j < i && #[trigger] self.ids@[j] == before[k];
                            assert(self.ids@[j] == out@[k]);
                        }
                    }
                    assert forall|y: u64| #[trigger] seq_ids(out@).contains(y) <==> (seq_ids(
                        before,
                    ).contains(y) || y == x) by {
                        if before.contains(y) {
                            let j = choose|j: int| 0 <= j < before.len() && before[j] == y;
                            assert(out@[j] == y);
                        }
                        if out@.contains(y) && y != x {
                            let j = choose|j: int| 0 <= j < out@.len() && out@[j] == y;
                            assert(before[j] == y);
                        }
                        if y == x {
                            assert(out@[out@.len() - 1] == y);
                        }
                    }
                } else {
                    assert forall|k: int| #![trigger out@[k]] 0 <= k < out@.len() implies exists|j: int|
                        0 <= j < i + 1 && #[trigger] self.ids@[j] == out@[k] by {
                        let j = choose|j: int| 0 <= j < i && #[trigger] self.ids@[j] == out@[k];
                        assert(0 <= j < i + 1);
                    }
                }
                assert(seq_ids(out@) =~= seq_ids(t1).difference(other@));
            }
            i = i + 1;
        }
        proof {
            assert(self.ids@.take(self.ids@.len() as int) =~= self.ids@);
        }
        IdSet { ids: out }
    }

    /// The set without `x`.
    pub fn remove(&mut self, x: u64)
        ensures
            final(self)@ == old(self)@.remove(x),
    {
        let mut single = IdSet::new();
        single.insert(x);
        let rest = self.difference(&single);
        proof {
            assert(rest@ =~= old(self)@.remove(x));
        }
        *self = rest;
    }
}

/// A strictly ascending sequence lists as many ids as its set holds.
proof fn lemma_ascending_len(s: Seq<u64>)
    requires
        strictly_ascending(s),
    ensures
        seq_ids(s).finite(),
        seq_ids(s).len() == s.len(),
    decreases s.len(),
{
    if s.len() == 0 {
        assert(seq_ids(s) =~= Set::<u64>::empty());
    } else {
        let t = s.drop_last();
        lemma_ascending_len(t);
        assert(!t.contains(s.last())) by {
            if t.contains(s.last()) {
                let j = choose|j: int| 0 <= j < t.len() && t[j] == s.last();
                assert(s[j] < s[s.len() - 1]);
            }
        }
        assert forall|y: u64| #[trigger] seq_ids(s).contains(y) <==> seq_ids(t).insert(
            s.last(),
        ).contains(y) by {
            if s.contains(y) && y != s.last() {
                let j = choose|j: int| 0 <= j < s.len() && s[j] == y;
                assert(t[j] == y);
            }
            if t.contains(y) {
                let j = choose|j: int| 0 <= j < t.len() && t[j] == y;
                assert(s[j] == y);
            }
            if y == s.last() {
                assert(s[s.len() - 1] == y);
            }
        }
        assert(seq_ids(s) =~= seq_ids(t).insert(s.last()));
    }
}

} // verus!
