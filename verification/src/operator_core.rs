//! The types shared by operators: what a reconciliation asks for next, its
//! outcome, the operator's configuration, and the roles of cluster nodes.
use crate::text::{decimal, decimal_string, parse_u16, parse_u16_spec, parse_u64, parse_u64_spec, text};
use crate::time::{duration_nanos, secs};
use std::time::Duration;
use vstd::prelude::*;

verus! {

/// What a reconciliation asks for next.
#[derive(Debug)]
pub enum Action {
    Requeue(Duration),
    RequeueAfter(Duration),
    Done,
}

impl Action {
    /// Reconcile again after `duration`.
    pub fn requeue(duration: Duration) -> (a: Self)
        ensures
            a == Action::Requeue(duration),
    {
        Action::Requeue(duration)
    }

    /// Reconcile again after `duration`.
    pub fn requeue_after(duration: Duration) -> (a: Self)
        ensures
            a == Action::RequeueAfter(duration),
    {
        Action::RequeueAfter(duration)
    }

    /// Nothing more to do.
    pub fn done() -> (a: Self)
        ensures
            a == Action::Done,
    {
        Action::Done
    }

    /// Wait for a change, looking again after five minutes at the latest.
    pub fn await_change() -> (a: Self)
        ensures
            a matches Action::Requeue(d) && duration_nanos(d) == 300_000_000_000,
    {
        Action::Requeue(secs(300))
    }
}

/// Why a reconciliation failed.
#[derive(Debug)]
pub enum ReconcileError {
    /// This node does not lead the cluster.
    NotLeader,
    /// The reconciliation failed for the given reason.
    Failed(String),
}

/// The outcome of a reconciliation: it completed and asks for an action,
/// or it failed.
#[derive(Debug)]
pub enum ReconcileResult {
    Completed(Action),
    Failed(ReconcileError),
}

impl ReconcileResult {
    /// The outcome of a reconciliation that ended with `r`.
    pub fn from_result(r: Result<Action, ReconcileError>) -> (o: Self)
        ensures
            match r {
                Ok(a) => o == ReconcileResult::Completed(a),
                Err(e) => o == ReconcileResult::Failed(e),
            },
    {
        match r {
            Ok(a) => ReconcileResult::Completed(a),
            Err(e) => ReconcileResult::Failed(e),
        }
    }
}

impl From<Action> for ReconcileResult {
    fn from(action: Action) -> (r: Self) {
        ReconcileResult::Completed(action)
    }
}

impl vstd::std_specs::convert::FromSpecImpl<Action> for ReconcileResult {
    open spec fn obeys_from_spec() -> bool {
        true
    }

    open spec fn from_spec(action: Action) -> Self {
        ReconcileResult::Completed(action)
    }
}

/// An error of the operator's setup.
#[derive(Debug)]
pub enum OperatorError {
    ConfigError(String),
    Internal(String),
}

/// The configuration of an operator's node.
#[derive(Debug)]
pub struct OperatorConfig {
    pub node_id: u64,
    pub cluster_name: String,
    pub namespace: String,
    pub service_name: String,
    pub raft_port: u16,
    pub metrics_port: u16,
    pub data_dir: String,
    pub election_timeout_ms: u64,
    pub heartbeat_interval_ms: u64,
    pub snapshot_threshold: u64,
    pub max_payload_entries: u64,
}

/// The configuration read from the environment: each variable's value if
/// it is set.
#[derive(Debug)]
pub struct OperatorEnv {
    pub node_id: Option<String>,
    pub cluster_name: Option<String>,
    pub namespace: Option<String>,
    pub service_name: Option<String>,
    pub raft_port: Option<String>,
    pub data_dir: Option<String>,
}

/// A set variable's text, else the default text.
pub open spec fn text_or(o: Option<String>, default: Seq<char>) -> Seq<char> {
    match o {
        Some(s) => s@,
        None => default,
    }
}

impl Default for OperatorConfig {
    /// Node 0 of cluster `operator` in namespace `default` behind service
    /// `operator-headless`; Raft on port 5000, metrics on 8080; data in
    /// `/data/raft`; elections after 1000 ms, heartbeats every 300 ms, a
    /// snapshot every 10000 entries, at most 100 entries per message.
    fn default() -> (c: Self)
        ensures
            c.node_id == 0,
            c.cluster_name@ == "operator"@,
            c.namespace@ == "default"@,
            c.service_name@ == "operator-headless"@,
            c.raft_port == 5000,
            c.metrics_port == 8080,
            c.data_dir@ == "/data/raft"@,
            c.election_timeout_ms == 1000,
            c.heartbeat_interval_ms == 300,
            c.snapshot_threshold == 10000,
            c.max_payload_entries == 100,
    {
        OperatorConfig {
            node_id: 0,
            cluster_name: text("operator"),
            namespace: text("default"),
            service_name: text("operator-headless"),
            raft_port: 5000,
            metrics_port: 8080,
            data_dir: text("/data/raft"),
            election_timeout_ms: 1000,
            heartbeat_interval_ms: 300,
            snapshot_threshold: 10000,
            max_payload_entries: 100,
        }
    }
}

/// Takes a set variable's value, else keeps the current one.
fn take_or_keep(o: Option<String>, current: String) -> (r: String)
    ensures
        r@ == text_or(o, current@),
{
    match o {
        Some(s) => s,
        None => current,
    }
}

impl OperatorConfig {
    /// The default configuration with the values of the set variables:
    /// `NODE_ID`, `CLUSTER_NAME`, `NAMESPACE`, `SERVICE_NAME`, `RAFT_PORT`
    /// and `DATA_DIR`. A node id or port that is not a number of its size
    /// is refused.
    pub fn from_env(env: OperatorEnv) -> (r: Result<Self, OperatorError>)
        ensures
            match env.node_id {
                Some(v) => parse_u64_spec(v@) is None,
                None => false,
            } ==> (r matches Err(OperatorError::ConfigError(m)) && m@ == "Invalid NODE_ID"@),
            (match env.node_id {
                Some(v) => parse_u64_spec(v@) is Some,
                None => true,
            } && match env.raft_port {
                Some(v) => parse_u16_spec(v@) is None,
                None => false,
            }) ==> (r matches Err(OperatorError::ConfigError(m)) && m@ == "Invalid RAFT_PORT"@),
            (match env.node_id {
                Some(v) => parse_u64_spec(v@) is Some,
                None => true,
            } && match env.raft_port {
                Some(v) => parse_u16_spec(v@) is Some,
                None => true,
            }) ==> (r matches Ok(c) && c.node_id == match env.node_id {
                Some(v) => parse_u64_spec(v@)->Some_0,
                None => 0,
            } && c.cluster_name@ == text_or(env.cluster_name, "operator"@) && c.namespace@
                == text_or(env.namespace, "default"@) && c.service_name@ == text_or(
                env.service_name,
                "operator-headless"@,
            ) && c.raft_port == match env.raft_port {
                Some(v) => parse_u16_spec(v@)->Some_0,
                None => 5000,
            } && c.data_dir@ == text_or(env.data_dir, "/data/raft"@) && c.metrics_port == 8080
                && c.election_timeout_ms == 1000 && c.heartbeat_interval_ms == 300
                && c.snapshot_threshold == 10000 && c.max_payload_entries == 100),
    {
        let mut config = OperatorConfig::default();
        if let Some(v) = &env.node_id {
            match parse_u64(v.as_str()) {
                Some(id) => {
                    config.node_id = id;
                },
                None => {
                    return Err(OperatorError::ConfigError(text("Invalid NODE_ID")));
                },
            }
        }
        config.cluster_name = take_or_keep(env.cluster_name, config.cluster_name);
        config.namespace = take_or_keep(env.namespace, config.namespace);
        config.service_name = take_or_keep(env.service_name, config.service_name);
        if let Some(v) = &env.raft_port {
            match parse_u16(v.as_str()) {
                Some(p) => {
                    config.raft_port = p;
                },
                None => {
                    return Err(OperatorError::ConfigError(text("Invalid RAFT_PORT")));
                },
            }
        }
        config.data_dir = take_or_keep(env.data_dir, config.data_dir);
        Ok(config)
    }

    /// The address of node `node_id`'s Raft endpoint: the pod of the
    /// cluster's stateful set with that ordinal, under the service.
    pub fn peer_address(&self, node_id: u64) -> (r: String)
        ensures
            r@ == self.cluster_name@ + "-"@ + decimal(node_id as nat) + "."@ + self.service_name@
                + "."@ + self.namespace@ + ".svc.cluster.local:"@ + decimal(self.raft_port as nat),
    {
        self.cluster_name.clone().concat("-").concat(decimal_string(node_id).as_str()).concat(
            ".",
        ).concat(self.service_name.as_str()).concat(".").concat(self.namespace.as_str()).concat(
            ".svc.cluster.local:",
        ).concat(decimal_string(self.raft_port as u64).as_str())
    }
}

/// The role of a node in the cluster.
#[derive(Clone, Copy, Debug, PartialEq, Eq, Structural)]
pub enum NodeRole {
    Leader,
    Follower,
    Candidate,
    Learner,
}

impl Default for NodeRole {
    /// A follower.
    fn default() -> (r: Self)
        ensures
            r == NodeRole::Follower,
    {
        NodeRole::Follower
    }
}

/// A node of the cluster: its id, address, role and health.
#[derive(Clone, Debug)]
pub struct NodeInfo {
    pub id: u64,
    pub address: String,
    pub role: NodeRole,
    pub is_healthy: bool,
}

} // verus!
