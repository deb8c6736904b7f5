//! The in-memory Raft store: the vote, the log, and the state machine fed
//! by committed entries.
use crate::kvmap::StringMap;
use crate::raft::log::{Entry, EntryPayload, LogId, Membership, MembershipView, RaftLog, Vote};
use crate::raft::types::{KeyValueStateMachine, StateMachine};
use vstd::prelude::*;

verus! {

/// A membership together with the log entry that established it.
#[derive(Clone, Debug)]
pub struct StoredMembership {
    pub log_id: Option<LogId>,
    pub membership: Membership,
}

impl StoredMembership {
    /// The empty membership, established by no entry.
    pub fn empty() -> (m: Self)
        ensures
            m.log_id is None,
            m.membership@.configs.len() == 0,
            m.membership@.nodes.len() == 0,
    {
        StoredMembership { log_id: None, membership: Membership::empty() }
    }
}

/// What a snapshot of the state machine holds: the last applied entry,
/// the last membership and the state machine's snapshot.
#[derive(Clone)]
pub struct StateMachineData<SM: StateMachine> {
    pub last_applied_log: Option<LogId>,
    pub last_membership: StoredMembership,
    pub snapshot: SM::Snapshot,
}

/// The description of a stored snapshot.
#[derive(Clone, Debug)]
pub struct SnapshotMeta {
    pub last_log_id: Option<LogId>,
    pub last_membership: StoredMembership,
    pub snapshot_id: String,
}

/// The state of the log: the last purged entry and the last entry, the
/// latter being the last purged one when the log is empty.
#[derive(Clone, Copy, Debug, PartialEq, Eq, Structural)]
pub struct LogState {
    pub last_purged_log_id: Option<LogId>,
    pub last_log_id: Option<LogId>,
}

/// The state-machine side of the store, as values.
pub struct MachineState<V> {
    pub last_applied: Option<LogId>,
    pub membership_log_id: Option<LogId>,
    pub membership: MembershipView,
    pub data: V,
}

/// The state after applying one entry: it becomes the last applied entry;
/// a request is applied to the state machine's state, a membership becomes
/// the last membership.
pub open spec fn apply_step<SM: StateMachine>(
    s: MachineState<SM::V>,
    e: Entry<SM::Request>,
) -> MachineState<SM::V> {
    match e.payload {
        EntryPayload::Blank => MachineState { last_applied: Some(e.log_id), ..s },
        EntryPayload::Normal(req) => MachineState {
            last_applied: Some(e.log_id),
            data: SM::applied(s.data, req),
            ..s
        },
        EntryPayload::Membership(m) => MachineState {
            last_applied: Some(e.log_id),
            membership_log_id: Some(e.log_id),
            membership: m@,
            ..s
        },
    }
}

/// The state after applying `es` in order.
pub open spec fn apply_all<SM: StateMachine>(
    s: MachineState<SM::V>,
    es: Seq<Entry<SM::Request>>,
) -> MachineState<SM::V>
    decreases es.len(),
{
    if es.len() == 0 {
        s
    } else {
        apply_step::<SM>(apply_all::<SM>(s, es.drop_last()), es.last())
    }
}

/// The response to applying `e` in state `s`: a request is answered as
/// the state machine answers it. Blanks and memberships get the response
/// type's default value, which the state machine does not describe.
pub open spec fn apply_response<SM: StateMachine>(
    s: MachineState<SM::V>,
    e: Entry<SM::Request>,
    r: SM::Response,
) -> bool {
    match e.payload {
        EntryPayload::Normal(req) => SM::answers(s.data, req, r),
        _ => true,
    }
}

/// The in-memory store of a Raft node.
pub struct MemStoreInner<SM: StateMachine> {
    pub vote: Option<Vote>,
    pub log: RaftLog<SM::Request>,
    pub last_purged_log_id: Option<LogId>,
    pub state_machine_data: StateMachineData<SM>,
    pub machine: SM,
    pub snapshot: Option<(SnapshotMeta, Vec<u8>)>,
}

impl MemStoreInner<KeyValueStateMachine> {
    /// An empty store: no vote, no entry, nothing applied, no snapshot.
    pub fn new() -> (s: Self)
        ensures
            s.vote is None,
            s.log@ == Map::<u64, Entry>::empty(),
            s.last_purged_log_id is None,
            s.state_machine_data.last_applied_log is None,
            s.state_machine_data.last_membership.log_id is None,
            s.state_machine_data.last_membership.membership@.configs.len() == 0,
            s.state_machine_data.last_membership.membership@.nodes.len() == 0,
            s.state_machine_data.snapshot@ == Map::<Seq<char>, Seq<char>>::empty(),
            s.machine@ == Map::<Seq<char>, Seq<char>>::empty(),
            s.snapshot is None,
    {
        MemStoreInner {
            vote: None,
            log: RaftLog::new(),
            last_purged_log_id: None,
            state_machine_data: StateMachineData {
                last_applied_log: None,
                last_membership: StoredMembership::empty(),
                snapshot: StringMap::new(),
            },
            machine: KeyValueStateMachine::new(),
            snapshot: None,
        }
    }

    /// The value stored under `key` by the applied writes.
    pub fn get(&self, key: &str) -> (r: Option<String>)
        ensures
            match r {
                Some(v) => self.machine@.contains_key(key@) && self.machine@[key@] == v@,
                None => !self.machine@.contains_key(key@),
            },
    {
        match self.machine.data.get(key) {
            Some(v) => Some(v.clone()),
            None => None,
        }
    }

    /// The key-value data of the state machine.
    pub fn data(&self) -> (r: StringMap<String>)
        ensures
            r@ == self.machine@,
    {
        self.machine.snapshot()
    }
}

impl<SM: StateMachine> MemStoreInner<SM> {
    /// The state-machine side of the store.
    pub open spec fn machine_state(self) -> MachineState<SM::V> {
        MachineState {
            last_applied: self.state_machine_data.last_applied_log,
            membership_log_id: self.state_machine_data.last_membership.log_id,
            membership: self.state_machine_data.last_membership.membership@,
            data: self.machine@,
        }
    }

    /// An empty store whose state machine starts as `machine`; the
    /// recorded snapshot is the snapshot type's default value.
    pub fn with_state_machine(machine: SM) -> (s: Self)
        ensures
            s.vote is None,
            s.log@ == Map::<u64, Entry<SM::Request>>::empty(),
            s.last_purged_log_id is None,
            s.state_machine_data.last_applied_log is None,
            s.state_machine_data.last_membership.log_id is None,
            s.state_machine_data.last_membership.membership@.configs.len() == 0,
            s.state_machine_data.last_membership.membership@.nodes.len() == 0,
            s.machine@ == machine@,
            s.snapshot is None,
    {
        MemStoreInner {
            vote: None,
            log: RaftLog::new(),
            last_purged_log_id: None,
            state_machine_data: StateMachineData {
                last_applied_log: None,
                last_membership: StoredMembership::empty(),
                snapshot: SM::Snapshot::default(),
            },
            machine,
            snapshot: None,
        }
    }

    /// Records `vote`.
    pub fn save_vote(&mut self, vote: &Vote)
        ensures
            final(self).vote == Some(*vote),
            final(self).log@ == old(self).log@,
            final(self).last_purged_log_id == old(self).last_purged_log_id,
            final(self).machine_state() == old(self).machine_state(),
            final(self).state_machine_data == old(self).state_machine_data,
            final(self).snapshot == old(self).snapshot,
    {
        self.vote = Some(*vote);
    }

    /// The recorded vote.
    pub fn read_vote(&self) -> (r: Option<Vote>)
        ensures
            r == self.vote,
    {
        self.vote
    }

    /// The last purged entry, and the last entry of the log or, when it is
    /// empty, the last purged one.
    pub fn get_log_state(&self) -> (r: LogState)
        ensures
            r.last_purged_log_id == self.last_purged_log_id,
            match r.last_log_id {
                None => self.log@.dom() == Set::<u64>::empty() && self.last_purged_log_id is None,
                Some(id) => if self.log@.dom() == Set::<u64>::empty() {
                    self.last_purged_log_id == Some(id)
                } else {
                    &&& self.log@.contains_key(id.index)
                    &&& self.log@[id.index].log_id == id
                    &&& forall|x: u64| #[trigger] self.log@.contains_key(x) ==> x <= id.index
                },
            },
    {
        let last = match self.log.last() {
            Some(e) => Some(e.log_id),
            None => self.last_purged_log_id,
        };
        LogState { last_purged_log_id: self.last_purged_log_id, last_log_id: last }
    }

    /// Stores each entry at its index, in order; a later entry replaces an
    /// earlier one at the same index.
    pub fn append_to_log(&mut self, entries: Vec<Entry<SM::Request>>)
        ensures
            final(self).log@ == appended(old(self).log@, entries@),
            final(self).vote == old(self).vote,
            final(self).last_purged_log_id == old(self).last_purged_log_id,
            final(self).machine_state() == old(self).machine_state(),
            final(self).state_machine_data == old(self).state_machine_data,
            final(self).snapshot == old(self).snapshot,
    {
        let total = entries.len();
        let ghost orig = entries@;
        let ghost start = self.log@;
        let mut rest = entries;
        let mut done: usize = 0;
        while rest.len() > 0
            invariant
                done + rest@.len() == orig.len(),
                orig.len() == total,
                rest@ == orig.subrange(done as int, orig.len() as int),
                self.log@ == appended(start, orig.take(done as int)),
                self.vote == old(self).vote,
                self.last_purged_log_id == old(self).last_purged_log_id,
                self.machine_state() == old(self).machine_state(),
                self.state_machine_data == old(self).state_machine_data,
                self.snapshot == old(self).snapshot,
            decreases rest@.len(),
        {
            let e = rest.remove(0);
            proof {
                assert(e == orig[done as int]);
                assert(orig.take(done + 1).drop_last() =~= orig.take(done as int));
            }
            self.log.insert(e);
            done = done + 1;
            proof {
                assert(rest@ =~= orig.subrange(done as int, orig.len() as int));
            }
        }
        proof {
            assert(orig.take(done as int) =~= orig);
        }
    }

    /// Removes the entries from `log_id`'s index on, which conflict with
    /// the leader's log.
    pub fn delete_conflict_logs_since(&mut self, log_id: LogId)
        ensures
            final(self).log@ == old(self).log@.restrict(Set::new(|x: u64| x < log_id.index)),
            final(self).vote == old(self).vote,
            final(self).last_purged_log_id == old(self).last_purged_log_id,
            final(self).machine_state() == old(self).machine_state(),
            final(self).state_machine_data == old(self).state_machine_data,
            final(self).snapshot == old(self).snapshot,
    {
        self.log.truncate_from(log_id.index);
    }

    /// Records `log_id` as the last purged entry and removes the entries up
    /// to its index.
    pub fn purge_logs_upto(&mut self, log_id: LogId)
        ensures
            final(self).last_purged_log_id == Some(log_id),
            final(self).log@ == old(self).log@.restrict(Set::new(|x: u64| x > log_id.index)),
            final(self).vote == old(self).vote,
            final(self).machine_state() == old(self).machine_state(),
            final(self).state_machine_data == old(self).state_machine_data,
            final(self).snapshot == old(self).snapshot,
    {
        self.last_purged_log_id = Some(log_id);
        self.log.purge_upto(log_id.index);
    }

    /// The last applied entry and the last membership.
    pub fn last_applied_state(&self) -> (r: (Option<LogId>, &StoredMembership))
        ensures
            r.0 == self.state_machine_data.last_applied_log,
            *r.1 == self.state_machine_data.last_membership,
    {
        (self.state_machine_data.last_applied_log, &self.state_machine_data.last_membership)
    }

    /// Applies committed entries in order and returns one response per
    /// entry; the snapshot data then equals the state machine's data.
    pub fn apply_to_state_machine(&mut self, entries: &[Entry<SM::Request>]) -> (responses: Vec<SM::Response>)
        ensures
            final(self).machine_state() == apply_all::<SM>(old(self).machine_state(), entries@),
            responses@.len() == entries@.len(),
            forall|i: int|
                0 <= i < entries@.len() ==> apply_response::<SM>(
                    apply_all::<SM>(old(self).machine_state(), entries@.take(i)),
                    entries@[i],
                    #[trigger] responses@[i],
                ),
            SM::held_by(final(self).state_machine_data.snapshot) == final(self).machine@,
            final(self).vote == old(self).vote,
            final(self).log@ == old(self).log@,
            final(self).last_purged_log_id == old(self).last_purged_log_id,
            final(self).snapshot == old(self).snapshot,
    {
        let ghost s0 = self.machine_state();
        let mut responses: Vec<SM::Response> = Vec::new();
        let mut i: usize = 0;
        while i < entries.len()
            invariant
                0 <= i <= entries@.len(),
                responses@.len() == i,
                self.machine_state() == apply_all::<SM>(s0, entries@.take(i as int)),
                forall|j: int|
                    0 <= j < i ==> apply_response::<SM>(
                        apply_all::<SM>(s0, entries@.take(j)),
                        entries@[j],
                        #[trigger] responses@[j],
                    ),
                self.vote == old(self).vote,
                self.log@ == old(self).log@,
                self.last_purged_log_id == old(self).last_purged_log_id,
                self.snapshot == old(self).snapshot,
            decreases entries@.len() - i,
        {
            let entry = &entries[i];
            proof {
                assert(entries@.take(i + 1).drop_last() =~= entries@.take(i as int));
                assert(entries@.take(i + 1).last() == entries@[i as int]);
            }
            self.state_machine_data.last_applied_log = Some(entry.log_id);
            match &entry.payload {
                EntryPayload::Blank => {
                    responses.push(SM::Response::default());
                },
                EntryPayload::Normal(req) => {
                    let response = self.machine.apply(req);
                    responses.push(response);
                },
                EntryPayload::Membership(mem) => {
                    self.state_machine_data.last_membership = StoredMembership {
                        log_id: Some(entry.log_id),
                        membership: mem.duplicate(),
                    };
                    responses.push(SM::Response::default());
                },
            }
            i = i + 1;
            proof {
                assert(self.machine_state() == apply_all::<SM>(s0, entries@.take(i as int)));
            }
        }
        proof {
            assert(entries@.take(entries@.len() as int) =~= entries@);
        }
        self.state_machine_data.snapshot = self.machine.snapshot();
        responses
    }

    /// The description of a snapshot of the current state-machine data:
    /// it covers the log up to the last applied entry, holds the last
    /// membership, and is named after the last applied entry.
    pub fn build_snapshot_meta(&self) -> (m: SnapshotMeta)
        ensures
            describes_snapshot(self.state_machine_data, m),
    {
        let last = self.state_machine_data.last_applied_log;
        SnapshotMeta {
            last_log_id: last,
            last_membership: StoredMembership {
                log_id: self.state_machine_data.last_membership.log_id,
                membership: self.state_machine_data.last_membership.membership.duplicate(),
            },
            snapshot_id: snapshot_id_for(last),
        }
    }

    /// The state machine's snapshot recorded for the next snapshot.
    pub fn snapshot_data(&self) -> (r: &SM::Snapshot)
        ensures
            *r == self.state_machine_data.snapshot,
    {
        &self.state_machine_data.snapshot
    }

    /// The state-machine data to build a snapshot from.
    pub fn snapshot_source(&self) -> (r: &StateMachineData<SM>)
        ensures
            *r == self.state_machine_data,
    {
        &self.state_machine_data
    }

    /// Installs a received snapshot: the state machine is restored from
    /// its data, which becomes the store's state-machine data, and the
    /// snapshot becomes the current one.
    pub fn install_snapshot(&mut self, meta: SnapshotMeta, data: StateMachineData<SM>, bytes: Vec<u8>)
        ensures
            installs(*old(self), meta, data, bytes, *final(self)),
    {
        let StateMachineData { last_applied_log, last_membership, snapshot } = data;
        self.machine.restore(snapshot);
        let recorded = self.machine.snapshot();
        self.state_machine_data = StateMachineData { last_applied_log, last_membership, snapshot: recorded };
        self.snapshot = Some((meta, bytes));
    }

    /// The current snapshot, if one was installed.
    pub fn get_current_snapshot(&self) -> (r: &Option<(SnapshotMeta, Vec<u8>)>)
        ensures
            *r == self.snapshot,
    {
        &self.snapshot
    }
}

/// `m` describes a snapshot of `d`: it covers the log up to the last
/// applied entry, holds the last membership, and is named after the last
/// applied entry.
pub open spec fn describes_snapshot<SM: StateMachine>(d: StateMachineData<SM>, m: SnapshotMeta) -> bool {
    &&& m.last_log_id == d.last_applied_log
    &&& m.last_membership.log_id == d.last_membership.log_id
    &&& m.last_membership.membership@ == d.last_membership.membership@
    &&& m.snapshot_id@ == log_id_debug_text(d.last_applied_log)
}

/// `after` is `before` with the snapshot `meta`, holding `data` and
/// received as `bytes`, installed: the state machine is restored from the
/// data, which becomes the store's state-machine data, and the snapshot
/// becomes the current one; the vote and the log stay.
pub open spec fn installs<SM: StateMachine>(
    before: MemStoreInner<SM>,
    meta: SnapshotMeta,
    data: StateMachineData<SM>,
    bytes: Vec<u8>,
    after: MemStoreInner<SM>,
) -> bool {
    &&& after.machine@ == SM::held_by(data.snapshot)
    &&& after.state_machine_data.last_applied_log == data.last_applied_log
    &&& after.state_machine_data.last_membership == data.last_membership
    &&& SM::held_by(after.state_machine_data.snapshot) == SM::held_by(data.snapshot)
    &&& after.snapshot matches Some((m, b)) && m == meta && b == bytes
    &&& after.vote == before.vote
    &&& after.log@ == before.log@
    &&& after.last_purged_log_id == before.last_purged_log_id
}

/// `a` and `b` hold the same state-machine data: the same last applied
/// entry, the same last membership and snapshots of the same state.
pub open spec fn same_machine_data<SM: StateMachine>(a: StateMachineData<SM>, b: StateMachineData<SM>) -> bool {
    &&& a.last_applied_log == b.last_applied_log
    &&& a.last_membership.log_id == b.last_membership.log_id
    &&& a.last_membership.membership@ == b.last_membership.membership@
    &&& SM::held_by(a.snapshot) == SM::held_by(b.snapshot)
}

/// A snapshot built on one store and installed on another carries the
/// state machine over: when `meta` describes a snapshot of `source`'s
/// state-machine data and `data` holds that same data (as the snapshot's
/// bytes decode to), installing them on `target` gives it `source`'s last
/// applied entry, last membership and key-value data, both as its
/// state-machine data and in its state machine, makes `meta` with `bytes`
/// its current snapshot, and `meta` still describes the installed data.
pub proof fn law_snapshot_carries_the_state_machine<SM: StateMachine>(
    source: MemStoreInner<SM>,
    target: MemStoreInner<SM>,
    meta: SnapshotMeta,
    data: StateMachineData<SM>,
    bytes: Vec<u8>,
    installed: MemStoreInner<SM>,
)
    requires
        describes_snapshot(source.state_machine_data, meta),
        same_machine_data(data, source.state_machine_data),
        installs(target, meta, data, bytes, installed),
    ensures
        same_machine_data(installed.state_machine_data, source.state_machine_data),
        installed.machine@ == SM::held_by(source.state_machine_data.snapshot),
        installed.snapshot == Some((meta, bytes)),
        describes_snapshot(installed.state_machine_data, meta),
        installed.vote == target.vote,
        installed.log@ == target.log@,
{
}

/// The text that openraft's `Debug` gives an optional log id with these
/// fields; snapshots are named by it.
pub uninterp spec fn log_id_debug_text(id: Option<LogId>) -> Seq<char>;

/// Writes the optional log id with the `Debug` impl that openraft derives
/// for `Option<LogId<u64>>`, after building openraft's log id from the
/// same term, node and index. The result is named `log_id_debug_text`.
#[verifier::external_body]
fn snapshot_id_for(id: Option<LogId>) -> (s: String)
    ensures
        s@ == log_id_debug_text(id),
{
    let raft_id: Option<openraft::LogId<u64>> = match id {
        Some(l) => Some(
            openraft::LogId::new(openraft::LeaderId::new(l.leader_id.term, l.leader_id.node_id), l.index),
        ),
        None => None,
    };
    format!("{:?}", raft_id)
}

/// The last entry of a log: the entry at its greatest index, or the last
/// purged entry when the log is empty.
pub open spec fn last_log_id_of<R>(log: Map<u64, Entry<R>>, purged: Option<LogId>) -> Option<LogId> {
    if log.dom() == Set::<u64>::empty() {
        purged
    } else {
        let k = choose|k: u64| log.contains_key(k) && forall|x: u64| #[trigger]
            log.contains_key(x) ==> x <= k;
        Some(log[k].log_id)
    }
}

/// Reading back the log after storing entries with distinct indices gives
/// each entry at its index, and keeps every other index as it was.
pub proof fn law_appended_entries_are_read_back<R>(log: Map<u64, Entry<R>>, es: Seq<Entry<R>>)
    requires
        forall|i: int, j: int|
            0 <= i < j < es.len() ==> es[i].log_id.index != es[j].log_id.index,
    ensures
        forall|i: int|
            0 <= i < es.len() ==> #[trigger] appended(log, es).contains_key(es[i].log_id.index)
                && appended(log, es)[es[i].log_id.index] == es[i],
        forall|x: u64|
            (forall|i: int| 0 <= i < es.len() ==> es[i].log_id.index != x) ==> (#[trigger] appended(
                log,
                es,
            ).contains_key(x) == log.contains_key(x) && (log.contains_key(x) ==> appended(log, es)[x]
                == log[x])),
    decreases es.len(),
{
    if es.len() > 0 {
        let t = es.drop_last();
        let last = es.last();
        assert forall|i: int, j: int| 0 <= i < j < t.len() implies t[i].log_id.index
            != t[j].log_id.index by {
            assert(t[i] == es[i] && t[j] == es[j]);
        }
        law_appended_entries_are_read_back(log, t);
        assert(appended(log, es) == appended(log, t).insert(last.log_id.index, last));
        assert forall|i: int| 0 <= i < es.len() implies #[trigger] appended(log, es).contains_key(
            es[i].log_id.index,
        ) && appended(log, es)[es[i].log_id.index] == es[i] by {
            if i < es.len() - 1 {
                assert(t[i] == es[i]);
                assert(es[i].log_id.index != es[es.len() - 1].log_id.index);
                assert(appended(log, t).contains_key(t[i].log_id.index));
            }
        }
        assert forall|x: u64|
            (forall|i: int| 0 <= i < es.len() ==> es[i].log_id.index != x) implies (
            #[trigger] appended(log, es).contains_key(x) == log.contains_key(x) && (log.contains_key(
                x,
            ) ==> appended(log, es)[x] == log[x])) by {
            assert(es[es.len() - 1].log_id.index != x);
            assert forall|i: int| 0 <= i < t.len() implies t[i].log_id.index != x by {
                assert(t[i] == es[i]);
            }
            assert(appended(log, t).contains_key(x) == log.contains_key(x));
        }
    }
}

/// After purging up to `id`, no entry at or before `id` remains, the log
/// reports `id` as last purged, and its last entry is `id` itself or a
/// later one.
pub proof fn law_purge_then_log_state<R>(log: Map<u64, Entry<R>>, id: LogId)
    requires
        log.dom().finite(),
        forall|x: u64| #[trigger] log.contains_key(x) ==> log[x].log_id.index == x,
    ensures
        ({
            let purged = log.restrict(Set::new(|x: u64| x > id.index));
            &&& forall|x: u64| #[trigger] purged.contains_key(x) ==> x > id.index
            &&& match last_log_id_of(purged, Some(id)) {
                Some(l) => l == id || l.index > id.index,
                None => false,
            }
        }),
{
    let purged = log.restrict(Set::new(|x: u64| x > id.index));
    if purged.dom() != Set::<u64>::empty() {
        assert(exists|x: u64| purged.contains_key(x)) by {
            if !(exists|x: u64| purged.contains_key(x)) {
                assert(purged.dom() =~= Set::<u64>::empty());
            }
        }
        vstd::set_lib::lemma_set_subset_finite(log.dom(), purged.dom());
        lemma_max_key_exists(purged);
        let k = choose|k: u64| purged.contains_key(k) && forall|x: u64| #[trigger]
            purged.contains_key(x) ==> x <= k;
        assert(purged[k].log_id.index == k);
    }
}

/// A finite non-empty key set has a greatest key.
proof fn lemma_max_key_exists<V>(m: Map<u64, V>)
    requires
        exists|x: u64| m.contains_key(x),
        m.dom().finite(),
    ensures
        exists|k: u64| m.contains_key(k) && forall|x: u64| #[trigger] m.contains_key(x) ==> x <= k,
    decreases m.dom().len(),
{
    let a = choose|x: u64| m.contains_key(x);
    let rest = m.remove(a);
    assert(rest.dom() =~= m.dom().remove(a));
    if !(exists|x: u64| rest.contains_key(x)) {
        assert forall|x: u64| #[trigger] m.contains_key(x) implies x <= a by {
            if x != a {
                assert(rest.contains_key(x));
            }
        }
    } else {
        lemma_max_key_exists(rest);
        let b = choose|k: u64| rest.contains_key(k) && forall|x: u64| #[trigger]
            rest.contains_key(x) ==> x <= k;
        let top = if a > b {
            a
        } else {
            b
        };
        assert forall|x: u64| #[trigger] m.contains_key(x) implies x <= top by {
            if x != a {
                assert(rest.contains_key(x));
            }
        }
        assert(m.contains_key(top));
    }
}

/// The log after storing `es` in order, each at its index.
pub open spec fn appended<R>(log: Map<u64, Entry<R>>, es: Seq<Entry<R>>) -> Map<u64, Entry<R>>
    decreases es.len(),
{
    if es.len() == 0 {
        log
    } else {
        appended(log, es.drop_last()).insert(es.last().log_id.index, es.last())
    }
}

/// The membership carried by the membership entry at `i` of `es` is the
/// last membership after applying `es`, when no later entry carries one.
proof fn lemma_last_membership_entry<SM: StateMachine>(
    s: MachineState<SM::V>,
    es: Seq<Entry<SM::Request>>,
    i: int,
)
    requires
        0 <= i < es.len(),
        es[i].payload is Membership,
        forall|j: int| i < j < es.len() ==> !(#[trigger] es[j].payload is Membership),
    ensures
        apply_all::<SM>(s, es).membership_log_id == Some(es[i].log_id),
        apply_all::<SM>(s, es).membership == es[i].payload->Membership_0@,
    decreases es.len(),
{
    let t = es.drop_last();
    if i < es.len() - 1 {
        assert(!(es[es.len() - 1].payload is Membership));
        assert forall|j: int| i < j < t.len() implies !(#[trigger] t[j].payload is Membership) by {
            assert(t[j] == es[j]);
        }
        lemma_last_membership_entry::<SM>(s, t, i);
    }
}

/// Applying entries none of which carries a membership keeps the last
/// membership.
proof fn lemma_no_membership_entry<SM: StateMachine>(
    s: MachineState<SM::V>,
    es: Seq<Entry<SM::Request>>,
)
    requires
        forall|j: int| 0 <= j < es.len() ==> !(#[trigger] es[j].payload is Membership),
    ensures
        apply_all::<SM>(s, es).membership_log_id == s.membership_log_id,
        apply_all::<SM>(s, es).membership == s.membership,
    decreases es.len(),
{
    if es.len() > 0 {
        let t = es.drop_last();
        assert(!(es[es.len() - 1].payload is Membership));
        assert forall|j: int| 0 <= j < t.len() implies !(#[trigger] t[j].payload is Membership) by {
            assert(t[j] == es[j]);
        }
        lemma_no_membership_entry::<SM>(s, t);
    }
}

/// Applying entries makes the last of them the last applied entry, makes
/// the membership carried by the last membership entry among them, with
/// that entry's log id, the last membership, and keeps the last
/// membership when none of them carries one.
pub proof fn law_applied_memberships_are_kept<SM: StateMachine>(
    s: MachineState<SM::V>,
    es: Seq<Entry<SM::Request>>,
)
    ensures
        es.len() > 0 ==> apply_all::<SM>(s, es).last_applied == Some(es.last().log_id),
        es.len() == 0 ==> apply_all::<SM>(s, es) == s,
        forall|i: int|
            #![trigger es[i]]
            0 <= i < es.len() && es[i].payload is Membership && (forall|j: int|
                i < j < es.len() ==> !(#[trigger] es[j].payload is Membership)) ==> {
                &&& apply_all::<SM>(s, es).membership_log_id == Some(es[i].log_id)
                &&& apply_all::<SM>(s, es).membership == es[i].payload->Membership_0@
            },
        (forall|j: int| 0 <= j < es.len() ==> !(#[trigger] es[j].payload is Membership)) ==> {
            &&& apply_all::<SM>(s, es).membership_log_id == s.membership_log_id
            &&& apply_all::<SM>(s, es).membership == s.membership
        },
{
    assert forall|i: int|
        #![trigger es[i]]
        0 <= i < es.len() && es[i].payload is Membership && (forall|j: int|
            i < j < es.len() ==> !(#[trigger] es[j].payload is Membership)) implies {
        &&& apply_all::<SM>(s, es).membership_log_id == Some(es[i].log_id)
        &&& apply_all::<SM>(s, es).membership == es[i].payload->Membership_0@
    } by {
        lemma_last_membership_entry::<SM>(s, es, i);
    }
    if forall|j: int| 0 <= j < es.len() ==> !(#[trigger] es[j].payload is Membership) {
        lemma_no_membership_entry::<SM>(s, es);
    }
}

/// The value of the last write of `key` among `es`, if any.
pub open spec fn last_write(es: Seq<Entry>, key: Seq<char>) -> Option<Seq<char>>
    decreases es.len(),
{
    if es.len() == 0 {
        None
    } else {
        match es.last().payload {
            EntryPayload::Normal(req) => if req.key@ == key {
                Some(req.value@)
            } else {
                last_write(es.drop_last(), key)
            },
            _ => last_write(es.drop_last(), key),
        }
    }
}

/// Writes are read back: after applying entries, a key holds the value of
/// its last write among them, and a key they do not write keeps its
/// value.
pub proof fn law_applied_writes_are_read_back(
    s: MachineState<Map<Seq<char>, Seq<char>>>,
    es: Seq<Entry>,
    key: Seq<char>,
)
    ensures
        match last_write(es, key) {
            Some(v) => apply_all::<KeyValueStateMachine>(s, es).data.contains_key(key) && apply_all::<KeyValueStateMachine>(s, es).data[key] == v,
            None => apply_all::<KeyValueStateMachine>(s, es).data.contains_key(key) == s.data.contains_key(key) && (
            s.data.contains_key(key) ==> apply_all::<KeyValueStateMachine>(s, es).data[key] == s.data[key]),
        },
    decreases es.len(),
{
    if es.len() > 0 {
        law_applied_writes_are_read_back(s, es.drop_last(), key);
    }
}

} // verus!
