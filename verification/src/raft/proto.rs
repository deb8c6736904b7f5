//! The wire messages of the Raft transport, and their conversion from and
//! to the log's own values.
//!
//! A vote travels as its leader's node and term; a log id travels as its
//! term and index only, so the node of the leader that created an entry is
//! not carried. A membership travels as one node map per configuration:
//! each voter with its address, the empty address for a voter that has
//! none; learners are not carried.
use crate::raft::log;
use crate::raft::types;
use vstd::prelude::*;

verus! {

/// The empty message.
#[derive(Clone, Copy, Debug, PartialEq, Eq, Structural)]
pub struct Empty {}

/// A vote on the wire.
#[derive(Clone, Copy, Debug, PartialEq, Eq, Structural)]
pub struct Vote {
    pub leader_id: u64,
    pub term: u64,
    pub committed: bool,
}

/// A log id on the wire.
#[derive(Clone, Copy, Debug, PartialEq, Eq, Structural)]
pub struct LogId {
    pub term: u64,
    pub index: u64,
}

/// A node's address on the wire.
#[derive(Clone, Debug)]
pub struct RaftNode {
    pub addr: String,
}

/// One configuration of a membership: its voters and their addresses.
#[derive(Clone, Debug)]
pub struct MembershipConfig {
    pub nodes: Vec<(u64, RaftNode)>,
}

/// A membership on the wire.
#[derive(Clone, Debug)]
pub struct MembershipPayload {
    pub configs: Vec<MembershipConfig>,
}

/// A write on the wire.
#[derive(Clone, Debug)]
pub struct NormalPayload {
    pub key: String,
    pub value: String,
}

/// What an entry carries on the wire.
#[derive(Clone, Debug)]
pub enum Payload {
    Blank(Empty),
    Normal(NormalPayload),
    Membership(MembershipPayload),
}

/// The payload field of an entry on the wire.
#[derive(Clone, Debug)]
pub struct EntryPayload {
    pub payload: Option<Payload>,
}

/// A log entry on the wire.
#[derive(Clone, Debug)]
pub struct Entry {
    pub log_id: Option<LogId>,
    pub payload: Option<EntryPayload>,
}

// ---------------------------------------------------------------------
// Votes and log ids
// ---------------------------------------------------------------------

/// The wire form of a vote.
pub open spec fn proto_vote(v: log::Vote) -> Vote {
    Vote { leader_id: v.leader_id.node_id, term: v.leader_id.term, committed: v.committed }
}

/// The vote a wire vote denotes.
pub open spec fn vote_of(v: Vote) -> log::Vote {
    log::Vote {
        leader_id: log::LeaderId { term: v.term, node_id: v.leader_id },
        committed: v.committed,
    }
}

/// The wire form of a log id: its term and index.
pub open spec fn proto_log_id(l: log::LogId) -> LogId {
    LogId { term: l.leader_id.term, index: l.index }
}

/// The log id a wire log id denotes, with node 0 as its leader's node.
pub open spec fn log_id_of(l: LogId) -> log::LogId {
    log::LogId { leader_id: log::LeaderId { term: l.term, node_id: 0 }, index: l.index }
}

/// The log id of term 0 and index 0, which stands for a missing one.
pub open spec fn zero_log_id() -> log::LogId {
    log::LogId { leader_id: log::LeaderId { term: 0, node_id: 0 }, index: 0 }
}

/// Puts a vote on the wire.
pub fn vote_to_proto(vote: &log::Vote) -> (r: Vote)
    ensures
        r == proto_vote(*vote),
{
    Vote {
        leader_id: vote.leader_id.node_id,
        term: vote.leader_id.term,
        committed: vote.committed,
    }
}

/// Reads a vote from the wire.
pub fn vote_from_proto(v: Vote) -> (r: log::Vote)
    ensures
        r == vote_of(v),
{
    log::Vote { leader_id: log::LeaderId { term: v.term, node_id: v.leader_id }, committed: v.committed }
}

/// Puts a log id on the wire.
pub fn log_id_to_proto(log_id: &log::LogId) -> (r: LogId)
    ensures
        r == proto_log_id(*log_id),
{
    LogId { term: log_id.leader_id.term, index: log_id.index }
}

/// Reads a log id from the wire.
pub fn log_id_from_proto(l: LogId) -> (r: log::LogId)
    ensures
        r == log_id_of(l),
{
    log::LogId { leader_id: log::LeaderId { term: l.term, node_id: 0 }, index: l.index }
}

/// A vote read back from its wire form is the vote sent, and a wire vote
/// put back on the wire is unchanged.
pub proof fn law_vote_round_trip(v: log::Vote, p: Vote)
    ensures
        vote_of(proto_vote(v)) == v,
        proto_vote(vote_of(p)) == p,
{
}

/// A log id read back from its wire form keeps its term and index and has
/// node 0 as its leader's node; it is the log id sent when that node was
/// 0. A wire log id put back on the wire is unchanged.
pub proof fn law_log_id_round_trip(l: log::LogId, p: LogId)
    ensures
        log_id_of(proto_log_id(l)).index == l.index,
        log_id_of(proto_log_id(l)).leader_id.term == l.leader_id.term,
        log_id_of(proto_log_id(l)).leader_id.node_id == 0,
        l.leader_id.node_id == 0 ==> log_id_of(proto_log_id(l)) == l,
        proto_log_id(log_id_of(p)) == p,
{
}

// ---------------------------------------------------------------------
// Memberships
// ---------------------------------------------------------------------

/// The addresses of a wire configuration, as pairs of values.
pub open spec fn node_pairs(s: Seq<(u64, RaftNode)>) -> Seq<(u64, Seq<char>)> {
    s.map_values(|p: (u64, RaftNode)| (p.0, p.1.addr@))
}

/// The node map of a wire configuration.
pub open spec fn config_view(c: MembershipConfig) -> Map<u64, Seq<char>> {
    log::addr_map(node_pairs(c.nodes@))
}

/// The address a membership gives node `id`: its own, or the empty
/// address when it has none.
pub open spec fn node_addr(nodes: Seq<(u64, Seq<char>)>, id: u64) -> Seq<char> {
    if log::addr_map(nodes).contains_key(id) {
        log::addr_map(nodes)[id]
    } else {
        Seq::empty()
    }
}

/// The wire node map of configuration `i` of a membership: each of its
/// voters with the address the membership gives it.
pub open spec fn config_nodes(m: log::MembershipView, i: int) -> Map<u64, Seq<char>> {
    Map::new(|id: u64| m.configs[i].contains(id), |id: u64| node_addr(m.nodes, id))
}

/// `p` is the wire form of membership `m`.
pub open spec fn encodes_membership(m: log::MembershipView, p: MembershipPayload) -> bool {
    &&& p.configs@.len() == m.configs.len()
    &&& forall|i: int|
        0 <= i < m.configs.len() ==> #[trigger] config_view(p.configs@[i]) == config_nodes(m, i)
}

/// The nodes of a sequence of wire configurations, a later configuration
/// winning over an earlier one for the same node.
pub open spec fn merged_nodes(cs: Seq<MembershipConfig>) -> Map<u64, Seq<char>>
    decreases cs.len(),
{
    if cs.len() == 0 {
        Map::empty()
    } else {
        merged_nodes(cs.drop_last()).union_prefer_right(config_view(cs.last()))
    }
}

/// The set of ids a sequence lists.
pub open spec fn id_set(s: Seq<u64>) -> Set<u64> {
    Set::new(|x: u64| s.contains(x))
}

/// `m` is the membership that wire membership `p` denotes: one
/// configuration per wire configuration, each made of its node ids (a
/// single empty configuration when there is none), and the nodes of all
/// configurations with their addresses.
pub open spec fn decodes_membership(p: MembershipPayload, m: log::MembershipView) -> bool {
    &&& if p.configs@.len() == 0 {
        m.configs.len() == 1 && m.configs[0].len() == 0
    } else {
        &&& m.configs.len() == p.configs@.len()
        &&& forall|i: int|
            0 <= i < p.configs@.len() ==> #[trigger] id_set(m.configs[i]) == config_view(
                p.configs@[i],
            ).dom()
    }
    &&& log::addr_map(m.nodes) == merged_nodes(p.configs@)
}

/// The addresses of a membership's nodes, as pairs of values.
pub open spec fn member_pairs(s: Seq<(u64, types::RaftNode)>) -> Seq<(u64, Seq<char>)> {
    s.map_values(|p: (u64, types::RaftNode)| (p.0, p.1.addr@))
}

/// The address that `nodes` gives node `id`, the last pair for `id`
/// winning; the empty address when no pair names it.
fn address_of(nodes: &Vec<(u64, types::RaftNode)>, id: u64) -> (a: String)
    ensures
        a@ == node_addr(member_pairs(nodes@), id),
{
    let ghost v = member_pairs(nodes@);
    let mut found: Option<usize> = None;
    let mut i: usize = 0;
    while i < nodes.len()
        invariant
            0 <= i <= nodes@.len(),
            v == member_pairs(nodes@),
            match found {
                Some(j) => j < i && log::addr_map(v.take(i as int)).contains_key(id)
                    && log::addr_map(v.take(i as int))[id] == v[j as int].1,
                None => !log::addr_map(v.take(i as int)).contains_key(id),
            },
        decreases nodes@.len() - i,
    {
        proof {
            assert(v.take(i + 1).drop_last() =~= v.take(i as int));
        }
        if nodes[i].0 == id {
            found = Some(i);
        }
        i = i + 1;
    }
    proof {
        assert(v.take(nodes@.len() as int) =~= v);
    }
    match found {
        Some(j) => nodes[j].1.addr.clone(),
        None => String::new(),
    }
}

/// The wire form of one configuration: each listed voter with the address
/// that `nodes` gives it.
fn config_to_proto(ids: &Vec<u64>, nodes: &Vec<(u64, types::RaftNode)>) -> (c: MembershipConfig)
    ensures
        config_view(c) == Map::new(
            |id: u64| ids@.contains(id),
            |id: u64| node_addr(member_pairs(nodes@), id),
        ),
{
    let ghost addrs = member_pairs(nodes@);
    let mut out: Vec<(u64, RaftNode)> = Vec::new();
    let mut k: usize = 0;
    while k < ids.len()
        invariant
            0 <= k <= ids@.len(),
            addrs == member_pairs(nodes@),
            log::addr_map(node_pairs(out@)) == Map::new(
                |id: u64| ids@.take(k as int).contains(id),
                |id: u64| node_addr(addrs, id),
            ),
        decreases ids@.len() - k,
    {
        let id = ids[k];
        let addr = address_of(nodes, id);
        let ghost before = out@;
        out.push((id, RaftNode { addr }));
        proof {
            assert(node_pairs(out@).drop_last() =~= node_pairs(before));
            let next = Map::new(
                |x: u64| ids@.take(k + 1).contains(x),
                |x: u64| node_addr(addrs, x),
            );
            let prev = Map::new(
                |x: u64| ids@.take(k as int).contains(x),
                |x: u64| node_addr(addrs, x),
            );
            let t0 = ids@.take(k as int);
            let t1 = ids@.take(k + 1);
            assert forall|x: u64| #[trigger] next.contains_key(x) <==> prev.insert(
                id,
                node_addr(addrs, id),
            ).contains_key(x) by {
                if t0.contains(x) {
                    let j = choose|j: int| 0 <= j < t0.len() && t0[j] == x;
                    assert(t1[j] == x);
                }
                if t1.contains(x) && x != id {
                    let j = choose|j: int| 0 <= j < t1.len() && t1[j] == x;
                    assert(j != k);
                    assert(t0[j] == x);
                }
                if x == id {
                    assert(t1[k as int] == x);
                }
            }
            assert(next =~= prev.insert(id, node_addr(addrs, id)));
        }
        k = k + 1;
    }
    proof {
        assert(ids@.take(ids@.len() as int) =~= ids@);
    }
    MembershipConfig { nodes: out }
}

/// The wire form of a membership.
fn membership_to_proto(m: &log::Membership) -> (p: MembershipPayload)
    ensures
        encodes_membership(m@, p),
{
    let mut configs: Vec<MembershipConfig> = Vec::new();
    let mut i: usize = 0;
    while i < m.configs.len()
        invariant
            0 <= i <= m.configs@.len(),
            configs@.len() == i,
            forall|j: int| 0 <= j < i ==> #[trigger] config_view(configs@[j]) == config_nodes(m@, j),
        decreases m.configs@.len() - i,
    {
        let c = config_to_proto(&m.configs[i], &m.nodes);
        proof {
            assert(member_pairs(m.nodes@) == m@.nodes);
            assert(m@.configs[i as int] == m.configs@[i as int]@);
            assert(config_view(c) =~= config_nodes(m@, i as int));
        }
        configs.push(c);
        i = i + 1;
    }
    MembershipPayload { configs }
}

/// The membership a wire membership denotes.
fn membership_from_proto(p: &MembershipPayload) -> (m: log::Membership)
    ensures
        decodes_membership(*p, m@),
{
    let mut configs: Vec<Vec<u64>> = Vec::new();
    let mut all_nodes: Vec<(u64, types::RaftNode)> = Vec::new();
    let mut i: usize = 0;
    while i < p.configs.len()
        invariant
            0 <= i <= p.configs@.len(),
            configs@.len() == i,
            forall|j: int|
                0 <= j < i ==> #[trigger] id_set(configs@[j]@) == config_view(p.configs@[j]).dom(),
            log::addr_map(member_pairs(all_nodes@)) == merged_nodes(p.configs@.take(i as int)),
        decreases p.configs@.len() - i,
    {
        let cfg = &p.configs[i];
        let ghost base = merged_nodes(p.configs@.take(i as int));
        let ghost pairs = node_pairs(cfg.nodes@);
        let mut ids: Vec<u64> = Vec::new();
        let mut k: usize = 0;
        while k < cfg.nodes.len()
            invariant
                0 <= k <= cfg.nodes@.len(),
                pairs == node_pairs(cfg.nodes@),
                id_set(ids@) == log::addr_map(pairs.take(k as int)).dom(),
                log::addr_map(member_pairs(all_nodes@)) == base.union_prefer_right(
                    log::addr_map(pairs.take(k as int)),
                ),
            decreases cfg.nodes@.len() - k,
        {
            let id = cfg.nodes[k].0;
            let addr = cfg.nodes[k].1.addr.clone();
            let ghost before_nodes = all_nodes@;
            let ghost before_ids = ids@;
            all_nodes.push((id, types::RaftNode { addr }));
            ids.push(id);
            proof {
                assert(member_pairs(all_nodes@).drop_last() =~= member_pairs(before_nodes));
                assert(pairs.take(k + 1).drop_last() =~= pairs.take(k as int));
                assert(pairs.take(k + 1).last() == pairs[k as int]);
                assert(log::addr_map(member_pairs(all_nodes@)) =~= base.union_prefer_right(
                    log::addr_map(pairs.take(k + 1)),
                ));
                assert forall|x: u64| #[trigger] id_set(ids@).contains(x) <==> id_set(
                    before_ids,
                ).insert(id).contains(x) by {
                    if before_ids.contains(x) {
                        let j = choose|j: int| 0 <= j < before_ids.len() && before_ids[j] == x;
                        assert(ids@[j] == x);
                    }
                    if ids@.contains(x) && x != id {
                        let j = choose|j: int| 0 <= j < ids@.len() && ids@[j] == x;
                        assert(j < before_ids.len());
                        assert(before_ids[j] == x);
                    }
                    if x == id {
                        assert(ids@[ids@.len() - 1] == x);
                    }
                }
                assert(id_set(ids@) =~= log::addr_map(pairs.take(k + 1)).dom());
            }
            k = k + 1;
        }
        proof {
            assert(pairs.take(cfg.nodes@.len() as int) =~= pairs);
            assert(p.configs@.take(i + 1).drop_last() =~= p.configs@.take(i as int));
            assert(p.configs@.take(i + 1).last() == p.configs@[i as int]);
        }
        configs.push(ids);
        i = i + 1;
    }
    proof {
        assert(p.configs@.take(p.configs@.len() as int) =~= p.configs@);
    }
    if configs.len() == 0 {
        configs.push(Vec::new());
    }
    log::Membership { configs, nodes: all_nodes }
}

/// Every node of the membership is a voter of one of its configurations,
/// and every voter has a node.
pub open spec fn nodes_are_voters(m: log::MembershipView) -> bool {
    forall|id: u64|
        #[trigger] log::addr_map(m.nodes).contains_key(id) <==> exists|i: int|
            0 <= i < m.configs.len() && m.configs[i].contains(id)
}

/// Two memberships have the same configurations, as sets of voters, and
/// the same node addresses.
pub open spec fn same_membership(a: log::MembershipView, b: log::MembershipView) -> bool {
    &&& a.configs.len() == b.configs.len()
    &&& forall|i: int| 0 <= i < a.configs.len() ==> #[trigger] id_set(a.configs[i]) == id_set(b.configs[i])
    &&& log::addr_map(a.nodes) == log::addr_map(b.nodes)
}

/// Merging the wire configurations of the first `n` configurations of a
/// membership gives each of their voters with its address.
proof fn lemma_merged_encoded(m: log::MembershipView, p: MembershipPayload, n: int)
    requires
        encodes_membership(m, p),
        0 <= n <= m.configs.len(),
    ensures
        merged_nodes(p.configs@.take(n)) == Map::new(
            |id: u64| exists|i: int| 0 <= i < n && #[trigger] m.configs[i].contains(id),
            |id: u64| node_addr(m.nodes, id),
        ),
    decreases n,
{
    let target = Map::new(
        |id: u64| exists|i: int| 0 <= i < n && #[trigger] m.configs[i].contains(id),
        |id: u64| node_addr(m.nodes, id),
    );
    if n == 0 {
        assert(merged_nodes(p.configs@.take(0)) =~= target);
    } else {
        lemma_merged_encoded(m, p, n - 1);
        let cs = p.configs@.take(n);
        assert(cs.drop_last() =~= p.configs@.take(n - 1));
        assert(cs.last() == p.configs@[n - 1]);
        assert(config_view(p.configs@[n - 1]) == config_nodes(m, n - 1));
        assert forall|id: u64| #[trigger] merged_nodes(cs).contains_key(id) <==> target.contains_key(
            id,
        ) by {
            if exists|i: int| 0 <= i < n && #[trigger] m.configs[i].contains(id) {
                let i = choose|i: int| 0 <= i < n && #[trigger] m.configs[i].contains(id);
                if i < n - 1 {
                    assert(exists|j: int| 0 <= j < n - 1 && #[trigger] m.configs[j].contains(id));
                }
            }
        }
        assert(merged_nodes(cs) =~= target);
    }
}

/// A membership read back from its wire form has the same configurations,
/// as sets of voters, and the same node addresses, when it has a
/// configuration and its nodes are exactly its voters.
pub proof fn law_membership_round_trip(
    m: log::MembershipView,
    p: MembershipPayload,
    d: log::MembershipView,
)
    requires
        encodes_membership(m, p),
        decodes_membership(p, d),
        m.configs.len() > 0,
        nodes_are_voters(m),
    ensures
        same_membership(m, d),
{
    assert forall|i: int| 0 <= i < m.configs.len() implies #[trigger] id_set(m.configs[i])
        == id_set(d.configs[i]) by {
        assert(config_view(p.configs@[i]) == config_nodes(m, i));
        assert(id_set(m.configs[i]) =~= config_nodes(m, i).dom());
    }
    lemma_merged_encoded(m, p, m.configs.len() as int);
    assert(p.configs@.take(m.configs.len() as int) =~= p.configs@);
    assert(log::addr_map(d.nodes) =~= log::addr_map(m.nodes));
}

// ---------------------------------------------------------------------
// Entries
// ---------------------------------------------------------------------

/// `p` is the wire form of entry `e`.
pub open spec fn encodes_entry(e: log::Entry, p: Entry) -> bool {
    &&& p.log_id == Some(proto_log_id(e.log_id))
    &&& match p.payload {
        Some(ep) => match ep.payload {
            Some(Payload::Blank(_)) => e.payload is Blank,
            Some(Payload::Normal(n)) => match e.payload {
                log::EntryPayload::Normal(r) => n.key@ == r.key@ && n.value@ == r.value@,
                _ => false,
            },
            Some(Payload::Membership(mp)) => match e.payload {
                log::EntryPayload::Membership(m) => encodes_membership(m@, mp),
                _ => false,
            },
            None => false,
        },
        None => false,
    }
}

/// The payload of a wire entry, if it has one.
pub open spec fn payload_of(p: Entry) -> Option<Payload> {
    match p.payload {
        Some(ep) => ep.payload,
        None => None,
    }
}

/// `e` is the entry that wire entry `p` denotes: a missing log id stands
/// for term 0 and index 0, and a missing payload for a blank entry.
pub open spec fn decodes_entry(p: Entry, e: log::Entry) -> bool {
    &&& e.log_id == match p.log_id {
        Some(l) => log_id_of(l),
        None => zero_log_id(),
    }
    &&& match payload_of(p) {
        Some(Payload::Normal(n)) => match e.payload {
            log::EntryPayload::Normal(r) => r.key@ == n.key@ && r.value@ == n.value@,
            _ => false,
        },
        Some(Payload::Membership(mp)) => match e.payload {
            log::EntryPayload::Membership(m) => decodes_membership(mp, m@),
            _ => false,
        },
        _ => e.payload is Blank,
    }
}

/// Puts a log entry on the wire.
pub fn entry_to_proto(entry: &log::Entry) -> (p: Entry)
    ensures
        encodes_entry(*entry, p),
{
    let payload = match &entry.payload {
        log::EntryPayload::Blank => EntryPayload { payload: Some(Payload::Blank(Empty {})) },
        log::EntryPayload::Normal(req) => EntryPayload {
            payload: Some(
                Payload::Normal(NormalPayload { key: req.key.clone(), value: req.value.clone() }),
            ),
        },
        log::EntryPayload::Membership(mem) => EntryPayload {
            payload: Some(Payload::Membership(membership_to_proto(mem))),
        },
    };
    Entry { log_id: Some(log_id_to_proto(&entry.log_id)), payload: Some(payload) }
}

/// Reads a log entry from the wire.
pub fn entry_from_proto(e: Entry) -> (r: log::Entry)
    ensures
        decodes_entry(e, r),
{
    let log_id = match e.log_id {
        Some(l) => log_id_from_proto(l),
        None => log::LogId { leader_id: log::LeaderId { term: 0, node_id: 0 }, index: 0 },
    };
    let payload = match e.payload {
        Some(ep) => match ep.payload {
            Some(Payload::Blank(_)) => log::EntryPayload::Blank,
            Some(Payload::Normal(n)) => log::EntryPayload::Normal(
                types::RaftRequest { key: n.key, value: n.value },
            ),
            Some(Payload::Membership(m)) => log::EntryPayload::Membership(
                membership_from_proto(&m),
            ),
            None => log::EntryPayload::Blank,
        },
        None => log::EntryPayload::Blank,
    };
    log::Entry { log_id, payload }
}

/// An entry read back from its wire form keeps its index and term, with
/// node 0 as its leader's node, and its payload: the same write, or the
/// same membership when it has a configuration and its nodes are exactly
/// its voters.
pub proof fn law_entry_round_trip(e: log::Entry, p: Entry, d: log::Entry)
    requires
        encodes_entry(e, p),
        decodes_entry(p, d),
        match e.payload {
            log::EntryPayload::Membership(m) => m@.configs.len() > 0 && nodes_are_voters(m@),
            _ => true,
        },
    ensures
        d.log_id == log_id_of(proto_log_id(e.log_id)),
        match e.payload {
            log::EntryPayload::Blank => d.payload is Blank,
            log::EntryPayload::Normal(r) => match d.payload {
                log::EntryPayload::Normal(s) => s.key@ == r.key@ && s.value@ == r.value@,
                _ => false,
            },
            log::EntryPayload::Membership(m) => match d.payload {
                log::EntryPayload::Membership(n) => same_membership(m@, n@),
                _ => false,
            },
        },
{
    match e.payload {
        log::EntryPayload::Membership(m) => {
            let mp = payload_of(p)->Some_0->Membership_0;
            match d.payload {
                log::EntryPayload::Membership(n) => {
                    law_membership_round_trip(m@, mp, n@);
                },
                _ => {},
            }
        },
        _ => {},
    }
}

// ---------------------------------------------------------------------
// Answers to append requests
// ---------------------------------------------------------------------

/// The answer to an append request on the wire: a higher vote seen, if
/// any; whether the entries were taken; the entry up to which they were
/// taken, when only some were.
#[derive(Clone, Copy, Debug, PartialEq, Eq, Structural)]
pub struct AppendEntriesResponse {
    pub vote: Option<Vote>,
    pub success: bool,
    pub conflict: Option<LogId>,
}

/// How a follower answers an append request.
#[derive(Clone, Copy, Debug, PartialEq, Eq, Structural)]
pub enum AppendOutcome {
    Success,
    PartialSuccess(Option<log::LogId>),
    Conflict,
    HigherVote(log::Vote),
}

/// The wire form of a follower's answer.
pub open spec fn proto_append_response(o: AppendOutcome) -> AppendEntriesResponse {
    match o {
        AppendOutcome::Success => AppendEntriesResponse { vote: None, success: true, conflict: None },
        AppendOutcome::PartialSuccess(l) => AppendEntriesResponse {
            vote: None,
            success: true,
            conflict: match l {
                Some(id) => Some(proto_log_id(id)),
                None => None,
            },
        },
        AppendOutcome::Conflict => AppendEntriesResponse {
            vote: None,
            success: false,
            conflict: None,
        },
        AppendOutcome::HigherVote(v) => AppendEntriesResponse {
            vote: Some(proto_vote(v)),
            success: false,
            conflict: None,
        },
    }
}

/// The answer a leader reads from the wire: taken when successful, a
/// conflict when one is reported, a higher vote when one is given, and a
/// conflict otherwise.
pub open spec fn append_outcome_of(r: AppendEntriesResponse) -> AppendOutcome {
    if r.success {
        AppendOutcome::Success
    } else if r.conflict is Some {
        AppendOutcome::Conflict
    } else {
        match r.vote {
            Some(v) => AppendOutcome::HigherVote(vote_of(v)),
            None => AppendOutcome::Conflict,
        }
    }
}

/// Puts a follower's answer on the wire.
pub fn append_response_to_proto(o: &AppendOutcome) -> (r: AppendEntriesResponse)
    ensures
        r == proto_append_response(*o),
{
    match o {
        AppendOutcome::Success => AppendEntriesResponse { vote: None, success: true, conflict: None },
        AppendOutcome::PartialSuccess(l) => AppendEntriesResponse {
            vote: None,
            success: true,
            conflict: match l {
                Some(id) => Some(log_id_to_proto(id)),
                None => None,
            },
        },
        AppendOutcome::Conflict => AppendEntriesResponse {
            vote: None,
            success: false,
            conflict: None,
        },
        AppendOutcome::HigherVote(v) => AppendEntriesResponse {
            vote: Some(vote_to_proto(v)),
            success: false,
            conflict: None,
        },
    }
}

/// Reads a follower's answer from the wire.
pub fn append_response_from_proto(r: &AppendEntriesResponse) -> (o: AppendOutcome)
    ensures
        o == append_outcome_of(*r),
{
    if r.success {
        AppendOutcome::Success
    } else if r.conflict.is_some() {
        AppendOutcome::Conflict
    } else {
        match r.vote {
            Some(v) => AppendOutcome::HigherVote(vote_from_proto(v)),
            None => AppendOutcome::Conflict,
        }
    }
}

/// A follower's answer read back from the wire: a partial success reads
/// as a success, every other answer as itself.
pub proof fn law_append_outcome_round_trip(o: AppendOutcome)
    ensures
        append_outcome_of(proto_append_response(o)) == match o {
            AppendOutcome::PartialSuccess(_) => AppendOutcome::Success,
            _ => o,
        },
{
}

/// The vote a wire answer carries, or the vote of term 0 by node 0,
/// uncommitted, when it carries none.
pub fn vote_or_default(v: Option<Vote>) -> (r: log::Vote)
    ensures
        r == match v {
            Some(p) => vote_of(p),
            None => log::Vote {
                leader_id: log::LeaderId { term: 0, node_id: 0 },
                committed: false,
            },
        },
{
    match v {
        Some(p) => vote_from_proto(p),
        None => log::Vote { leader_id: log::LeaderId { term: 0, node_id: 0 }, committed: false },
    }
}

} // verus!
