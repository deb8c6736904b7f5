//! The identity of a Raft node: its id, taken from the ordinal at the end
//! of its pod's host name, and the address it advertises; and the timing
//! it hands to Raft.
use crate::error::Error;
use crate::raft::config::RaftConfig;
use crate::text::{decimal, decimal_string, parse_u64, parse_u64_spec, text};
use crate::time::{as_nanos, duration_nanos};
use vstd::prelude::*;
use vstd::string::*;

verus! {

/// The position of the last dash in `s`, if any.
pub open spec fn last_dash(s: Seq<char>) -> Option<int>
    decreases s.len(),
{
    if s.len() == 0 {
        None
    } else if s.last() == '-' {
        Some(s.len() - 1)
    } else {
        last_dash(s.drop_last())
    }
}

/// The node id a host name gives: the number after its last dash. `None`
/// inside when there is no dash; `Some(None)` when what follows the last
/// dash is not a number.
pub open spec fn hostname_node_id(h: Seq<char>) -> Option<Option<u64>> {
    match last_dash(h) {
        None => None,
        Some(i) => Some(parse_u64_spec(h.subrange(i + 1, h.len() as int))),
    }
}

/// The position of the last dash is that of a dash, and no dash follows.
proof fn lemma_last_dash(s: Seq<char>)
    ensures
        match last_dash(s) {
            Some(i) => 0 <= i < s.len() && s[i] == '-' && forall|j: int|
                i < j < s.len() ==> s[j] != '-',
            None => forall|j: int| 0 <= j < s.len() ==> s[j] != '-',
        },
    decreases s.len(),
{
    if s.len() > 0 && s.last() != '-' {
        let t = s.drop_last();
        lemma_last_dash(t);
        assert forall|j: int| 0 <= j < t.len() implies s[j] == t[j] by {}
    }
}

/// The id of the node running in the pod with host name `hostname`: the
/// number after the last dash, as a stateful set numbers its pods.
pub fn node_id_from_hostname(hostname: &str) -> (r: Result<u64, Error>)
    ensures
        match hostname_node_id(hostname@) {
            None => r matches Err(Error::Other(m)) && m@ == "Invalid hostname format: "@
                + hostname@,
            Some(None) => r matches Err(Error::Other(m)) && m@ == "Failed to parse node ID from "@
                + hostname@,
            Some(Some(n)) => r == Ok::<u64, Error>(n),
        },
{
    let n = hostname.unicode_len();
    let mut dash: Option<usize> = None;
    let mut i: usize = 0;
    while i < n
        invariant
            n == hostname@.len(),
            0 <= i <= n,
            match dash {
                Some(d) => last_dash(hostname@.take(i as int)) == Some(d as int),
                None => last_dash(hostname@.take(i as int)) is None,
            },
        decreases n - i,
    {
        proof {
            assert(hostname@.take(i + 1).drop_last() =~= hostname@.take(i as int));
            assert(hostname@.take(i + 1).last() == hostname@[i as int]);
        }
        if hostname.get_char(i) == '-' {
            dash = Some(i);
        }
        i = i + 1;
    }
    proof {
        assert(hostname@.take(n as int) =~= hostname@);
        lemma_last_dash(hostname@);
    }
    match dash {
        None => Err(Error::Other(text("Invalid hostname format: ").concat(hostname))),
        Some(d) => {
            let suffix = hostname.substring_char(d + 1, n);
            match parse_u64(suffix) {
                Some(id) => Ok(id),
                None => Err(Error::Other(text("Failed to parse node ID from ").concat(hostname))),
            }
        },
    }
}

/// The name of the pod a node runs in: the given one, else `pod-` and the
/// node id.
pub fn pod_name_or_default(pod: Option<&str>, node_id: u64) -> (r: String)
    ensures
        r@ == match pod {
            Some(p) => p@,
            None => "pod-"@ + decimal(node_id as nat),
        },
{
    match pod {
        Some(p) => text(p),
        None => text("pod-").concat(decimal_string(node_id).as_str()),
    }
}

/// The address a node advertises to its peers: its pod's DNS name under
/// the headless service, port 8080.
pub open spec fn node_address_text(pod: Seq<char>, service: Seq<char>, namespace: Seq<char>) -> Seq<
    char,
> {
    pod + "."@ + service + "."@ + namespace + ".svc.cluster.local:8080"@
}

/// The address the node of `config` advertises, running in pod `pod`
/// (`pod-` and its id when unknown).
pub fn node_address(config: &RaftConfig, pod: Option<&str>) -> (r: String)
    ensures
        r@ == node_address_text(
            match pod {
                Some(p) => p@,
                None => "pod-"@ + decimal(config.node_id as nat),
            },
            config.service_name@,
            config.namespace@,
        ),
{
    pod_name_or_default(pod, config.node_id).concat(".").concat(config.service_name.as_str()).concat(
        ".",
    ).concat(config.namespace.as_str()).concat(".svc.cluster.local:8080")
}

/// The timing Raft runs with, in milliseconds: elections time out between
/// the election timeout and twice it; leaders send heartbeats at the
/// heartbeat interval.
#[derive(Clone, Copy, Debug, PartialEq, Eq, Structural)]
pub struct RaftTimings {
    pub election_timeout_min: u64,
    pub election_timeout_max: u64,
    pub heartbeat_interval: u64,
}

/// Whole milliseconds of a nanosecond count, cut to 64 bits.
pub open spec fn whole_millis(nanos: nat) -> u64 {
    ((nanos / 1_000_000) as u128) as u64
}

/// The timing of a node configured by `config`. The doubled election
/// timeout must fit in 64 bits.
pub fn raft_timings(config: &RaftConfig) -> (t: RaftTimings)
    requires
        whole_millis(duration_nanos(config.election_timeout)) * 2 <= u64::MAX,
    ensures
        t.election_timeout_min == whole_millis(duration_nanos(config.election_timeout)),
        t.election_timeout_max == whole_millis(duration_nanos(config.election_timeout)) * 2,
        t.heartbeat_interval == whole_millis(duration_nanos(config.heartbeat_interval)),
{
    let election = (as_nanos(&config.election_timeout) / 1_000_000) as u64;
    let heartbeat = (as_nanos(&config.heartbeat_interval) / 1_000_000) as u64;
    RaftTimings {
        election_timeout_min: election,
        election_timeout_max: election * 2,
        heartbeat_interval: heartbeat,
    }
}

} // verus!
