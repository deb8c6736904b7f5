//! The replicated key-value state machine and the values Raft carries.
use crate::kvmap::StringMap;
use vstd::prelude::*;

verus! {

/// Identifies a node of the cluster.
pub type NodeId = u64;

/// A write of `value` under `key`.
#[derive(Clone, Debug)]
pub struct RaftRequest {
    pub key: String,
    pub value: String,
}

/// The answer to a request: whether it was applied, and the value it
/// replaced.
#[derive(Clone, Debug)]
pub struct RaftResponse {
    pub success: bool,
    pub value: Option<String>,
}

impl Default for RaftResponse {
    /// Not applied, replacing nothing.
    fn default() -> (r: Self)
        ensures
            !r.success,
            r.value is None,
    {
        RaftResponse { success: false, value: None }
    }
}

/// The address of a cluster node.
#[derive(Clone, Debug)]
pub struct RaftNode {
    pub addr: String,
}

impl Default for RaftNode {
    /// The empty address.
    fn default() -> (r: Self)
        ensures
            r.addr@ == Seq::<char>::empty(),
    {
        RaftNode { addr: String::new() }
    }
}

/// A key-value store whose every write replaces the value of its key.
#[derive(Clone, Debug)]
pub struct KeyValueStateMachine {
    pub data: StringMap<String>,
}

impl View for KeyValueStateMachine {
    type V = Map<Seq<char>, Seq<char>>;

    open spec fn view(&self) -> Map<Seq<char>, Seq<char>> {
        self.data@
    }
}

impl KeyValueStateMachine {
    /// An empty store.
    pub fn new() -> (m: Self)
        ensures
            m@ == Map::<Seq<char>, Seq<char>>::empty(),
    {
        KeyValueStateMachine { data: StringMap::new() }
    }

    /// Stores `request.value` under `request.key`; the response succeeds
    /// and carries the value that was replaced, if any.
    pub fn apply(&mut self, request: &RaftRequest) -> (r: RaftResponse)
        ensures
            final(self)@ == old(self)@.insert(request.key@, request.value@),
            r.success,
            match r.value {
                Some(v) => old(self)@.contains_key(request.key@) && old(self)@[request.key@] == v@,
                None => !old(self)@.contains_key(request.key@),
            },
    {
        let previous = self.data.set(request.key.clone(), request.value.clone());
        RaftResponse { success: true, value: previous }
    }

    /// The store's contents.
    pub fn snapshot(&self) -> (s: StringMap<String>)
        ensures
            s@ == self@,
    {
        self.data.duplicate()
    }

    /// Replaces the store's contents by `snapshot`.
    pub fn restore(&mut self, snapshot: StringMap<String>)
        ensures
            final(self)@ == snapshot@,
    {
        self.data = snapshot;
    }
}

impl Default for KeyValueStateMachine {
    /// An empty store.
    fn default() -> (m: Self)
        ensures
            m@ == Map::<Seq<char>, Seq<char>>::empty(),
    {
        KeyValueStateMachine::new()
    }
}

/// A state machine that Raft replicates: it applies requests in log
/// order, and can be captured in a snapshot and restored from one. Its
/// view is its state; an implementation states, through the spec
/// functions, what a request does to the state and how it is answered,
/// and which state a snapshot holds.
pub trait StateMachine: Sized + View {
    type Request: Clone + std::fmt::Debug;
    type Response: Clone + std::fmt::Debug + Default;
    type Snapshot: Clone + Default;

    /// The state after `request` is applied in `state`.
    spec fn applied(state: Self::V, request: Self::Request) -> Self::V;

    /// `response` is the answer to `request` applied in `state`.
    spec fn answers(state: Self::V, request: Self::Request, response: Self::Response) -> bool;

    /// The state that `snapshot` holds.
    spec fn held_by(snapshot: Self::Snapshot) -> Self::V;

    /// Applies a committed request and answers it.
    fn apply(&mut self, request: &Self::Request) -> (r: Self::Response)
        ensures
            final(self)@ == Self::applied(old(self)@, *request),
            Self::answers(old(self)@, *request, r),
    ;

    /// The state, as a snapshot.
    fn snapshot(&self) -> (s: Self::Snapshot)
        ensures
            Self::held_by(s) == self@,
    ;

    /// Replaces the state by a snapshot's.
    fn restore(&mut self, snapshot: Self::Snapshot)
        ensures
            final(self)@ == Self::held_by(snapshot),
    ;
}

impl StateMachine for KeyValueStateMachine {
    type Request = RaftRequest;
    type Response = RaftResponse;
    type Snapshot = StringMap<String>;

    /// A write stores its value under its key.
    open spec fn applied(state: Map<Seq<char>, Seq<char>>, request: RaftRequest) -> Map<
        Seq<char>,
        Seq<char>,
    > {
        state.insert(request.key@, request.value@)
    }

    /// A write succeeds and gives the value it replaced, if any.
    open spec fn answers(
        state: Map<Seq<char>, Seq<char>>,
        request: RaftRequest,
        response: RaftResponse,
    ) -> bool {
        response.success && match response.value {
            Some(v) => state.contains_key(request.key@) && state[request.key@] == v@,
            None => !state.contains_key(request.key@),
        }
    }

    /// A snapshot holds its key-value pairs.
    open spec fn held_by(snapshot: StringMap<String>) -> Map<Seq<char>, Seq<char>> {
        snapshot@
    }

    fn apply(&mut self, request: &RaftRequest) -> (r: RaftResponse) {
        KeyValueStateMachine::apply(self, request)
    }

    fn snapshot(&self) -> (s: StringMap<String>) {
        KeyValueStateMachine::snapshot(self)
    }

    fn restore(&mut self, snapshot: StringMap<String>) {
        KeyValueStateMachine::restore(self, snapshot)
    }
}

} // verus!
