//! The health endpoints of a Raft node: liveness, readiness, leadership
//! and metrics, answered as JSON from what Raft reports.
use crate::text::{decimal, decimal_string, same_text, text};
use vstd::prelude::*;

verus! {

/// The role a Raft node plays.
#[derive(Clone, Copy, Debug, PartialEq, Eq, Structural)]
pub enum ServerRole {
    Learner,
    Follower,
    Candidate,
    Leader,
    Shutdown,
}

/// The name of a role, as its `Debug` writes it.
pub open spec fn role_name(r: ServerRole) -> Seq<char> {
    match r {
        ServerRole::Learner => "Learner"@,
        ServerRole::Follower => "Follower"@,
        ServerRole::Candidate => "Candidate"@,
        ServerRole::Leader => "Leader"@,
        ServerRole::Shutdown => "Shutdown"@,
    }
}

/// The name of a role.
fn role_text(r: ServerRole) -> (s: String)
    ensures
        s@ == role_name(r),
{
    match r {
        ServerRole::Learner => text("Learner"),
        ServerRole::Follower => text("Follower"),
        ServerRole::Candidate => text("Candidate"),
        ServerRole::Leader => text("Leader"),
        ServerRole::Shutdown => text("Shutdown"),
    }
}

/// What the endpoints read of Raft's metrics: whether Raft runs, the
/// known leader, the term, the role, the last log index, the last applied
/// index, the index the snapshot covers, and the number of voters.
#[derive(Clone, Copy, Debug, PartialEq, Eq, Structural)]
pub struct RaftStatus {
    pub running: bool,
    pub current_leader: Option<u64>,
    pub current_term: u64,
    pub state: ServerRole,
    pub last_log_index: Option<u64>,
    pub last_applied: Option<u64>,
    pub snapshot_index: Option<u64>,
    pub voters: u64,
}

/// An HTTP answer: its status code and JSON body.
#[derive(Debug)]
pub struct HealthResponse {
    pub status: u16,
    pub body: String,
}

/// The JSON text of a boolean.
pub open spec fn bool_json(b: bool) -> Seq<char> {
    if b {
        "true"@
    } else {
        "false"@
    }
}

/// The value of an optional count, 0 when absent.
pub open spec fn or_zero(o: Option<u64>) -> u64 {
    match o {
        Some(v) => v,
        None => 0,
    }
}

/// The body of the readiness answer: ready once Raft runs and a leader is
/// known; else the reason, Raft not running first.
pub open spec fn ready_answer(s: RaftStatus) -> (u16, Seq<char>) {
    if s.running && s.current_leader is Some {
        (200, "{\"status\":\"ready\"}"@)
    } else if !s.running {
        (503, "{\"status\":\"not_ready\",\"reason\":\"raft_not_initialized\"}"@)
    } else {
        (503, "{\"status\":\"not_ready\",\"reason\":\"no_leader\"}"@)
    }
}

/// The body of the leadership answer.
pub open spec fn leader_body(node_id: u64, is_leader: bool, s: RaftStatus) -> Seq<char> {
    "{\"node_id\":"@ + decimal(node_id as nat) + ",\"is_leader\":"@ + bool_json(is_leader)
        + ",\"current_leader\":"@ + match s.current_leader {
        Some(id) => decimal(id as nat),
        None => "null"@,
    } + ",\"current_term\":"@ + decimal(s.current_term as nat) + ",\"state\":\""@ + role_name(
        s.state,
    ) + "\"}"@
}

/// The entries not yet applied, 0 when the applied index is ahead.
pub open spec fn log_size(s: RaftStatus) -> u64 {
    if or_zero(s.last_log_index) >= or_zero(s.last_applied) {
        (or_zero(s.last_log_index) - or_zero(s.last_applied)) as u64
    } else {
        0
    }
}

/// The body of the metrics answer.
pub open spec fn metrics_body(node_id: u64, s: RaftStatus) -> Seq<char> {
    "{\"node_id\":"@ + decimal(node_id as nat) + ",\"last_log_index\":"@ + decimal(
        or_zero(s.last_log_index) as nat,
    ) + ",\"last_applied\":"@ + decimal(or_zero(s.last_applied) as nat) + ",\"log_size\":"@
        + decimal(log_size(s) as nat) + ",\"snapshot_index\":"@ + decimal(
        or_zero(s.snapshot_index) as nat,
    ) + ",\"current_term\":"@ + decimal(s.current_term as nat) + ",\"state\":\""@ + role_name(
        s.state,
    ) + "\",\"members\":"@ + decimal(s.voters as nat) + "}"@
}

/// The answer to a request for `path`, by method GET when `is_get`, on
/// node `node_id`, which leads when `is_leader`.
pub open spec fn health_answer(
    is_get: bool,
    path: Seq<char>,
    node_id: u64,
    is_leader: bool,
    s: RaftStatus,
) -> (u16, Seq<char>) {
    if is_get && path == "/health"@ {
        (200, "{\"status\":\"ok\"}"@)
    } else if is_get && path == "/ready"@ {
        ready_answer(s)
    } else if is_get && path == "/leader"@ {
        (200, leader_body(node_id, is_leader, s))
    } else if is_get && path == "/metrics"@ {
        (200, metrics_body(node_id, s))
    } else {
        (404, "{\"error\":\"not_found\"}"@)
    }
}

/// The readiness answer.
fn handle_ready(s: &RaftStatus) -> (r: HealthResponse)
    ensures
        (r.status, r.body@) == ready_answer(*s),
{
    if s.running && s.current_leader.is_some() {
        HealthResponse { status: 200, body: text("{\"status\":\"ready\"}") }
    } else {
        let reason = if !s.running {
            "raft_not_initialized"
        } else {
            "no_leader"
        };
        let body = text("{\"status\":\"not_ready\",\"reason\":\"").concat(reason).concat("\"}");
        proof {
            reveal_strlit("{\"status\":\"not_ready\",\"reason\":\"");
            reveal_strlit("\"}");
            reveal_strlit("raft_not_initialized");
            reveal_strlit("no_leader");
            reveal_strlit("{\"status\":\"not_ready\",\"reason\":\"raft_not_initialized\"}");
            reveal_strlit("{\"status\":\"not_ready\",\"reason\":\"no_leader\"}");
            assert(body@ =~= ready_answer(*s).1);
        }
        HealthResponse { status: 503, body }
    }
}

/// The leadership answer.
fn handle_leader(node_id: u64, is_leader: bool, s: &RaftStatus) -> (r: HealthResponse)
    ensures
        r.status == 200,
        r.body@ == leader_body(node_id, is_leader, *s),
{
    let leader = match s.current_leader {
        Some(id) => decimal_string(id),
        None => text("null"),
    };
    let flag = if is_leader {
        text("true")
    } else {
        text("false")
    };
    let body = text("{\"node_id\":").concat(decimal_string(node_id).as_str()).concat(
        ",\"is_leader\":",
    ).concat(flag.as_str()).concat(",\"current_leader\":").concat(leader.as_str()).concat(
        ",\"current_term\":",
    ).concat(decimal_string(s.current_term).as_str()).concat(",\"state\":\"").concat(
        role_text(s.state).as_str(),
    ).concat("\"}");
    HealthResponse { status: 200, body }
}

/// The metrics answer.
fn handle_metrics(node_id: u64, s: &RaftStatus) -> (r: HealthResponse)
    ensures
        r.status == 200,
        r.body@ == metrics_body(node_id, *s),
{
    let last_log_index: u64 = match s.last_log_index {
        Some(i) => i,
        None => 0,
    };
    let last_applied: u64 = match s.last_applied {
        Some(i) => i,
        None => 0,
    };
    let snapshot_index: u64 = match s.snapshot_index {
        Some(i) => i,
        None => 0,
    };
    let size = last_log_index.saturating_sub(last_applied);
    let body = text("{\"node_id\":").concat(decimal_string(node_id).as_str()).concat(
        ",\"last_log_index\":",
    ).concat(decimal_string(last_log_index).as_str()).concat(",\"last_applied\":").concat(
        decimal_string(last_applied).as_str(),
    ).concat(",\"log_size\":").concat(decimal_string(size).as_str()).concat(
        ",\"snapshot_index\":",
    ).concat(decimal_string(snapshot_index).as_str()).concat(",\"current_term\":").concat(
        decimal_string(s.current_term).as_str(),
    ).concat(",\"state\":\"").concat(role_text(s.state).as_str()).concat("\",\"members\":").concat(
        decimal_string(s.voters).as_str(),
    ).concat("}");
    HealthResponse { status: 200, body }
}

/// Answers a request for `path`, by method GET when `is_get`, on node
/// `node_id`, which leads when `is_leader`.
pub fn handle(is_get: bool, path: &str, node_id: u64, is_leader: bool, s: &RaftStatus) -> (r:
    HealthResponse)
    ensures
        (r.status, r.body@) == health_answer(is_get, path@, node_id, is_leader, *s),
{
    if is_get && same_text(path, "/health") {
        HealthResponse { status: 200, body: text("{\"status\":\"ok\"}") }
    } else if is_get && same_text(path, "/ready") {
        handle_ready(s)
    } else if is_get && same_text(path, "/leader") {
        handle_leader(node_id, is_leader, s)
    } else if is_get && same_text(path, "/metrics") {
        handle_metrics(node_id, s)
    } else {
        HealthResponse { status: 404, body: text("{\"error\":\"not_found\"}") }
    }
}

/// What the leadership watcher records after Raft reports `role`: the new
/// leadership when it differs from what was recorded, nothing otherwise.
pub fn leadership_update(was_leader: bool, role: ServerRole) -> (r: Option<bool>)
    ensures
        r == (if (role == ServerRole::Leader) != was_leader {
            Some(role == ServerRole::Leader)
        } else {
            None::<bool>
        }),
{
    let is_leader = matches!(role, ServerRole::Leader);
    if is_leader != was_leader {
        Some(is_leader)
    } else {
        None
    }
}

/// The paths the health endpoints answer; every other request goes to
/// the Raft transport.
pub open spec fn health_path(path: Seq<char>) -> bool {
    path == "/health"@ || path == "/ready"@ || path == "/leader"@ || path == "/metrics"@
}

/// Whether a request for `path` goes to the health endpoints.
pub fn is_health_path(path: &str) -> (r: bool)
    ensures
        r == health_path(path@),
{
    same_text(path, "/health") || same_text(path, "/ready") || same_text(path, "/leader")
        || same_text(path, "/metrics")
}

} // verus!
