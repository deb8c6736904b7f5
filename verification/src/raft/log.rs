//! Raft log entries and the in-memory log, kept in index order.
use crate::raft::types::{RaftNode, RaftRequest};
use vstd::prelude::*;

verus! {

/// The leader that created an entry or holds a vote: its term and node.
#[derive(Clone, Copy, Debug, PartialEq, Eq, Structural)]
pub struct LeaderId {
    pub term: u64,
    pub node_id: u64,
}

/// The position of an entry in the log: its index and the leader that
/// created it.
#[derive(Clone, Copy, Debug, PartialEq, Eq, Structural)]
pub struct LogId {
    pub leader_id: LeaderId,
    pub index: u64,
}

/// A vote for a leader; committed once a quorum granted it.
#[derive(Clone, Copy, Debug, PartialEq, Eq, Structural)]
pub struct Vote {
    pub leader_id: LeaderId,
    pub committed: bool,
}

/// A cluster membership: one voter set, or two during a joint change, and
/// the address of each node.
#[derive(Clone, Debug)]
pub struct Membership {
    pub configs: Vec<Vec<u64>>,
    pub nodes: Vec<(u64, RaftNode)>,
}

/// What a membership holds, as values.
pub struct MembershipView {
    pub configs: Seq<Seq<u64>>,
    pub nodes: Seq<(u64, Seq<char>)>,
}

impl View for Membership {
    type V = MembershipView;

    open spec fn view(&self) -> MembershipView {
        MembershipView {
            configs: self.configs@.map_values(|c: Vec<u64>| c@),
            nodes: self.nodes@.map_values(|n: (u64, RaftNode)| (n.0, n.1.addr@)),
        }
    }
}

impl Membership {
    /// The membership with no configuration and no node.
    pub fn empty() -> (m: Self)
        ensures
            m@.configs.len() == 0,
            m@.nodes.len() == 0,
    {
        Membership { configs: Vec::new(), nodes: Vec::new() }
    }

    /// A copy holding the same configurations and addresses.
    pub fn duplicate(&self) -> (r: Self)
        ensures
            r@ == self@,
    {
        let mut configs: Vec<Vec<u64>> = Vec::new();
        let mut i: usize = 0;
        while i < self.configs.len()
            invariant
                0 <= i <= self.configs@.len(),
                configs@.len() == i,
                forall|j: int| 0 <= j < i ==> #[trigger] configs@[j]@ == self.configs@[j]@,
            decreases self.configs@.len() - i,
        {
            let src = &self.configs[i];
            let mut c: Vec<u64> = Vec::new();
            let mut k: usize = 0;
            while k < src.len()
                invariant
                    0 <= k <= src@.len(),
                    c@ == src@.take(k as int),
                decreases src@.len() - k,
            {
                c.push(src[k]);
                k = k + 1;
                proof {
                    assert(c@ =~= src@.take(k as int));
                }
            }
            proof {
                assert(c@ =~= src@);
            }
            configs.push(c);
            i = i + 1;
        }
        let mut nodes: Vec<(u64, RaftNode)> = Vec::new();
        let mut i: usize = 0;
        while i < self.nodes.len()
            invariant
                0 <= i <= self.nodes@.len(),
                nodes@.len() == i,
                forall|j: int|
                    0 <= j < i ==> (#[trigger] nodes@[j]).0 == self.nodes@[j].0 && nodes@[j].1.addr@
                        == self.nodes@[j].1.addr@,
            decreases self.nodes@.len() - i,
        {
            let id = self.nodes[i].0;
            let addr = self.nodes[i].1.addr.clone();
            nodes.push((id, RaftNode { addr }));
            i = i + 1;
        }
        let r = Membership { configs, nodes };
        proof {
            assert(r@.configs =~= self@.configs);
            assert(r@.nodes =~= self@.nodes);
        }
        r
    }
}

/// The address map that (node, address) pairs denote; a later pair wins
/// over an earlier one for the same node.
pub open spec fn addr_map(s: Seq<(u64, Seq<char>)>) -> Map<u64, Seq<char>>
    decreases s.len(),
{
    if s.len() == 0 {
        Map::empty()
    } else {
        addr_map(s.drop_last()).insert(s.last().0, s.last().1)
    }
}

/// What a log entry carries.
#[derive(Clone, Debug)]
pub enum EntryPayload<R = RaftRequest> {
    Blank,
    Normal(R),
    Membership(Membership),
}

/// A log entry.
#[derive(Clone, Debug)]
pub struct Entry<R = RaftRequest> {
    pub log_id: LogId,
    pub payload: EntryPayload<R>,
}

/// The entries are in strictly increasing index order.
pub open spec fn index_sorted<R>(s: Seq<Entry<R>>) -> bool {
    forall|i: int, j: int| 0 <= i < j < s.len() ==> s[i].log_id.index < s[j].log_id.index
}

/// The log as a map from index to entry.
pub open spec fn log_view<R>(s: Seq<Entry<R>>) -> Map<u64, Entry<R>> {
    Map::new(
        |k: u64| exists|i: int| 0 <= i < s.len() && s[i].log_id.index == k,
        |k: u64| s[choose|i: int| 0 <= i < s.len() && s[i].log_id.index == k],
    )
}

/// In a sorted log each entry is found at its own index.
pub proof fn lemma_log_view_at<R>(s: Seq<Entry<R>>, i: int)
    requires
        index_sorted(s),
        0 <= i < s.len(),
    ensures
        log_view(s).contains_key(s[i].log_id.index),
        log_view(s)[s[i].log_id.index] == s[i],
{
    let k = s[i].log_id.index;
    assert(exists|j: int| 0 <= j < s.len() && s[j].log_id.index == k);
    let j = choose|j: int| 0 <= j < s.len() && s[j].log_id.index == k;
    if j < i {
        assert(s[j].log_id.index < s[i].log_id.index);
    } else if i < j {
        assert(s[i].log_id.index < s[j].log_id.index);
    }
}

/// Two sorted logs holding the same entries at the same indices denote
/// the same map, when their entries are related position by position.
proof fn lemma_view_eq<R>(s: Seq<Entry<R>>, t: Seq<Entry<R>>, m: Map<u64, Entry<R>>)
    requires
        index_sorted(t),
        forall|k: u64| #[trigger] m.contains_key(k) <==> exists|i: int|
            0 <= i < t.len() && t[i].log_id.index == k,
        forall|i: int| 0 <= i < t.len() ==> #[trigger] m[t[i].log_id.index] == t[i],
    ensures
        log_view(t) == m,
{
    assert forall|k: u64| #[trigger] log_view(t).contains_key(k) implies log_view(t)[k] == m[k] by {
        let i = choose|i: int| 0 <= i < t.len() && t[i].log_id.index == k;
        lemma_log_view_at(t, i);
    }
    assert(log_view(t) =~= m);
}

/// The log of a Raft node: entries in strictly increasing index order.
#[derive(Debug)]
pub struct RaftLog<R = RaftRequest> {
    entries: Vec<Entry<R>>,
}

impl<R> View for RaftLog<R> {
    type V = Map<u64, Entry<R>>;

    closed spec fn view(&self) -> Map<u64, Entry<R>> {
        log_view(self.entries@)
    }
}

impl<R> RaftLog<R> {
    #[verifier::type_invariant]
    spec fn well_formed(self) -> bool {
        index_sorted(self.entries@)
    }

    /// The entries in index order.
    pub closed spec fn seq(self) -> Seq<Entry<R>> {
        self.entries@
    }

    /// An empty log.
    pub fn new() -> (l: Self)
        ensures
            l@ == Map::<u64, Entry<R>>::empty(),
            l.seq().len() == 0,
    {
        let l = RaftLog { entries: Vec::new() };
        proof {
            assert(l@ =~= Map::<u64, Entry<R>>::empty());
        }
        l
    }

    /// The entries in index order; they denote the log.
    pub fn entries(&self) -> (r: &Vec<Entry<R>>)
        ensures
            r@ == self.seq(),
            index_sorted(r@),
            log_view(r@) == self@,
    {
        proof {
            use_type_invariant(self);
        }
        &self.entries
    }

    /// The position of the first entry whose index is at least `k`.
    fn position_at_least(entries: &Vec<Entry<R>>, k: u64) -> (p: usize)
        requires
            index_sorted(entries@),
        ensures
            p <= entries@.len(),
            forall|i: int| 0 <= i < p ==> entries@[i].log_id.index < k,
            forall|i: int| p <= i < entries@.len() ==> entries@[i].log_id.index >= k,
    {
        let mut p: usize = 0;
        while p < entries.len() && entries[p].log_id.index < k
            invariant
                index_sorted(entries@),
                p <= entries@.len(),
                forall|i: int| 0 <= i < p ==> entries@[i].log_id.index < k,
            decreases entries@.len() - p,
        {
            p = p + 1;
        }
        proof {
            if p < entries@.len() {
                assert forall|i: int| p <= i < entries@.len() implies entries@[i].log_id.index
                    >= k by {
                    if i > p {
                        assert(entries@[p as int].log_id.index < entries@[i].log_id.index);
                    }
                }
            }
        }
        p
    }

    /// Stores `entry` at its index, replacing an entry already there.
    pub fn insert(&mut self, entry: Entry<R>)
        ensures
            final(self)@ == old(self)@.insert(entry.log_id.index, entry),
    {
        proof {
            use_type_invariant(&*self);
        }
        let mut entries: Vec<Entry<R>> = Vec::new();
        std::mem::swap(&mut entries, &mut self.entries);
        let ghost s = entries@;
        let k = entry.log_id.index;
        let p = Self::position_at_least(&entries, k);
        let ghost m = log_view(s).insert(k, entry);
        if p < entries.len() && entries[p].log_id.index == k {
            entries.remove(p);
            entries.insert(p, entry);
            proof {
                let t = entries@;
                assert(t =~= s.update(p as int, entry));
                assert(index_sorted(t)) by {
                    assert forall|i: int, j: int| 0 <= i < j < t.len() implies t[i].log_id.index
                        < t[j].log_id.index by {
                        assert(s[i].log_id.index < s[j].log_id.index);
                    }
                }
                assert forall|x: u64| #[trigger] m.contains_key(x) <==> exists|i: int|
                    0 <= i < t.len() && t[i].log_id.index == x by {
                    if x != k && m.contains_key(x) {
                        let i = choose|i: int| 0 <= i < s.len() && s[i].log_id.index == x;
                        assert(t[i].log_id.index == x);
                    }
                    if exists|i: int| 0 <= i < t.len() && t[i].log_id.index == x {
                        let i = choose|i: int| 0 <= i < t.len() && t[i].log_id.index == x;
                        if i != p {
                            assert(s[i].log_id.index == x);
                        }
                    }
                }
                assert forall|i: int| 0 <= i < t.len() implies #[trigger] m[t[i].log_id.index]
                    == t[i] by {
                    if i != p {
                        lemma_log_view_at(s, i);
                    }
                }
                lemma_view_eq(s, t, m);
            }
        } else {
            entries.insert(p, entry);
            proof {
                let t = entries@;
                assert(t =~= s.insert(p as int, entry));
                assert(index_sorted(t)) by {
                    assert forall|i: int, j: int| 0 <= i < j < t.len() implies t[i].log_id.index
                        < t[j].log_id.index by {
                        if j < p {
                            assert(s[i].log_id.index < s[j].log_id.index);
                        } else if j == p {
                        } else if i < p {
                            assert(s[j - 1].log_id.index >= k);
                            assert(s[j - 1].log_id.index != k);
                        } else if i == p {
                            assert(s[j - 1].log_id.index >= k);
                            assert(s[p as int].log_id.index >= k);
                            assert(s[p as int].log_id.index != k);
                            if j - 1 > p {
                                assert(s[p as int].log_id.index < s[j - 1].log_id.index);
                            }
                        } else {
                            assert(s[i - 1].log_id.index < s[j - 1].log_id.index);
                        }
                    }
                }
                assert forall|x: u64| #[trigger] m.contains_key(x) <==> exists|i: int|
                    0 <= i < t.len() && t[i].log_id.index == x by {
                    if x == k {
                        assert(t[p as int].log_id.index == x);
                    } else if m.contains_key(x) {
                        let i = choose|i: int| 0 <= i < s.len() && s[i].log_id.index == x;
                        if i < p {
                            assert(t[i].log_id.index == x);
                        } else {
                            assert(t[i + 1].log_id.index == x);
                        }
                    }
                    if exists|i: int| 0 <= i < t.len() && t[i].log_id.index == x {
                        let i = choose|i: int| 0 <= i < t.len() && t[i].log_id.index == x;
                        if i < p {
                            assert(s[i].log_id.index == x);
                        } else if i > p {
                            assert(s[i - 1].log_id.index == x);
                        }
                    }
                }
                assert forall|i: int| 0 <= i < t.len() implies #[trigger] m[t[i].log_id.index]
                    == t[i] by {
                    if i < p {
                        lemma_log_view_at(s, i);
                        assert(s[i].log_id.index < k);
                    } else if i > p {
                        lemma_log_view_at(s, i - 1);
                        assert(s[i - 1].log_id.index >= k);
                        assert(s[i - 1].log_id.index != k);
                    }
                }
                lemma_view_eq(s, t, m);
            }
        }
        self.entries = entries;
    }

    /// Removes every entry whose index is at least `k`.
    pub fn truncate_from(&mut self, k: u64)
        ensures
            final(self)@ == old(self)@.restrict(Set::new(|x: u64| x < k)),
    {
        proof {
            use_type_invariant(&*self);
        }
        let mut entries: Vec<Entry<R>> = Vec::new();
        std::mem::swap(&mut entries, &mut self.entries);
        let ghost s = entries@;
        let p = Self::position_at_least(&entries, k);
        entries.truncate(p);
        proof {
            let t = entries@;
            let m = log_view(s).restrict(Set::new(|x: u64| x < k));
            assert(t =~= s.take(p as int));
            assert forall|x: u64| #[trigger] m.contains_key(x) <==> exists|i: int|
                0 <= i < t.len() && t[i].log_id.index == x by {
                if m.contains_key(x) {
                    let i = choose|i: int| 0 <= i < s.len() && s[i].log_id.index == x;
                    assert(i < p);
                    assert(t[i].log_id.index == x);
                }
                if exists|i: int| 0 <= i < t.len() && t[i].log_id.index == x {
                    let i = choose|i: int| 0 <= i < t.len() && t[i].log_id.index == x;
                    assert(s[i].log_id.index == x);
                }
            }
            assert forall|i: int| 0 <= i < t.len() implies #[trigger] m[t[i].log_id.index]
                == t[i] by {
                lemma_log_view_at(s, i);
            }
            lemma_view_eq(s, t, m);
        }
        self.entries = entries;
    }

    /// Removes every entry whose index is at most `k`.
    pub fn purge_upto(&mut self, k: u64)
        ensures
            final(self)@ == old(self)@.restrict(Set::new(|x: u64| x > k)),
    {
        proof {
            use_type_invariant(&*self);
        }
        let mut entries: Vec<Entry<R>> = Vec::new();
        std::mem::swap(&mut entries, &mut self.entries);
        let ghost s = entries@;
        let mut p: usize = 0;
        while p < entries.len() && entries[p].log_id.index <= k
            invariant
                index_sorted(entries@),
                entries@ == s,
                p <= entries@.len(),
                forall|i: int| 0 <= i < p ==> entries@[i].log_id.index <= k,
            decreases entries@.len() - p,
        {
            p = p + 1;
        }
        proof {
            if p < s.len() {
                assert forall|i: int| p <= i < s.len() implies s[i].log_id.index > k by {
                    if i > p {
                        assert(s[p as int].log_id.index < s[i].log_id.index);
                    }
                }
            }
        }
        let tail = entries.split_off(p);
        proof {
            let t = tail@;
            let m = log_view(s).restrict(Set::new(|x: u64| x > k));
            assert(t =~= s.skip(p as int));
            assert(index_sorted(t)) by {
                assert forall|i: int, j: int| 0 <= i < j < t.len() implies t[i].log_id.index
                    < t[j].log_id.index by {
                    assert(s[i + p].log_id.index < s[j + p].log_id.index);
                }
            }
            assert forall|x: u64| #[trigger] m.contains_key(x) <==> exists|i: int|
                0 <= i < t.len() && t[i].log_id.index == x by {
                if m.contains_key(x) {
                    let i = choose|i: int| 0 <= i < s.len() && s[i].log_id.index == x;
                    assert(i >= p);
                    assert(t[i - p].log_id.index == x);
                }
                if exists|i: int| 0 <= i < t.len() && t[i].log_id.index == x {
                    let i = choose|i: int| 0 <= i < t.len() && t[i].log_id.index == x;
                    assert(s[i + p].log_id.index == x);
                }
            }
            assert forall|i: int| 0 <= i < t.len() implies #[trigger] m[t[i].log_id.index]
                == t[i] by {
                lemma_log_view_at(s, i + p);
            }
            lemma_view_eq(s, t, m);
        }
        self.entries = tail;
    }

    /// The entry with the greatest index, if the log is not empty.
    pub fn last(&self) -> (r: Option<&Entry<R>>)
        ensures
            match r {
                None => self@.dom() == Set::<u64>::empty(),
                Some(e) => {
                    &&& self@.contains_key(e.log_id.index)
                    &&& self@[e.log_id.index] == *e
                    &&& forall|x: u64| #[trigger] self@.contains_key(x) ==> x <= e.log_id.index
                },
            },
    {
        proof {
            use_type_invariant(self);
        }
        let n = self.entries.len();
        if n == 0 {
            proof {
                assert(self@.dom() =~= Set::<u64>::empty());
            }
            None
        } else {
            proof {
                let s = self.entries@;
                lemma_log_view_at(s, n - 1);
                assert forall|x: u64| #[trigger] self@.contains_key(x) implies x <= s[n
                    - 1].log_id.index by {
                    let i = choose|i: int| 0 <= i < s.len() && s[i].log_id.index == x;
                    if i < n - 1 {
                        assert(s[i].log_id.index < s[n - 1].log_id.index);
                    }
                }
            }
            Some(&self.entries[n - 1])
        }
    }

    /// The positions of the entries whose index is at least `lo` and below
    /// `hi` (no upper bound when `hi` is `None`): they are exactly the
    /// positions from `start` up to `end`.
    pub fn range_positions(&self, lo: u64, hi: Option<u64>) -> (r: (usize, usize))
        ensures
            r.0 <= r.1 <= self.seq().len(),
            forall|i: int|
                0 <= i < self.seq().len() ==> ((r.0 <= i < r.1) <==> (lo
                    <= self.seq()[i].log_id.index && match hi {
                    Some(h) => self.seq()[i].log_id.index < h,
                    None => true,
                })),
    {
        proof {
            use_type_invariant(self);
        }
        let start = Self::position_at_least(&self.entries, lo);
        let end = match hi {
            None => self.entries.len(),
            Some(h) => {
                let e = Self::position_at_least(&self.entries, h);
                if e < start {
                    start
                } else {
                    e
                }
            },
        };
        (start, end)
    }
}

} // verus!
