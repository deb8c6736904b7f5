//! Raft support for operators built from parts: the node's Raft
//! configuration and builder, and the discovery of peers, behind a headless
//! service or from a fixed list.
use crate::operator_core::OperatorError;
use crate::text::{decimal, decimal_string, parse_u64, parse_u64_spec, text, trim, trim_end_matches, trim_spec, trim_suffix};
use crate::time::{duration_nanos, millis, secs};
use std::collections::HashMap;
use std::time::Duration;
use vstd::prelude::*;
use vstd::string::*;

verus! {

broadcast use vstd::std_specs::hash::group_hash_axioms;

/// A node's address.
#[derive(Clone, Debug)]
pub struct BasicNode {
    pub addr: String,
}

/// The configuration of a node's Raft instance.
#[derive(Debug)]
pub struct RaftConfig {
    pub node_id: u64,
    pub cluster_name: String,
    pub listen_addr: String,
    pub advertise_addr: String,
    pub peer_addresses: Vec<String>,
    pub election_timeout: Duration,
    pub heartbeat_interval: Duration,
    pub snapshot_threshold: u64,
    pub max_payload_entries: u64,
    pub install_snapshot_timeout: Duration,
    pub send_timeout: Duration,
}

/// The default configuration: node 0 of cluster `operator`, listening on
/// `0.0.0.0:5000` and advertising `localhost:5000`, no peer; elections
/// after 1000 ms, heartbeats every 300 ms, a snapshot every 10000
/// entries, at most 100 entries per message, 60 s to install a snapshot,
/// 5 s to send.
pub open spec fn is_default_config(c: RaftConfig) -> bool {
    &&& c.node_id == 0
    &&& c.cluster_name@ == "operator"@
    &&& c.listen_addr@ == "0.0.0.0:5000"@
    &&& c.advertise_addr@ == "localhost:5000"@
    &&& c.peer_addresses@.len() == 0
    &&& duration_nanos(c.election_timeout) == 1_000_000_000
    &&& duration_nanos(c.heartbeat_interval) == 300_000_000
    &&& c.snapshot_threshold == 10000
    &&& c.max_payload_entries == 100
    &&& duration_nanos(c.install_snapshot_timeout) == 60_000_000_000
    &&& duration_nanos(c.send_timeout) == 5_000_000_000
}

impl Default for RaftConfig {
    /// The default configuration.
    fn default() -> (c: Self)
        ensures
            is_default_config(c),
    {
        RaftConfig {
            node_id: 0,
            cluster_name: text("operator"),
            listen_addr: text("0.0.0.0:5000"),
            advertise_addr: text("localhost:5000"),
            peer_addresses: Vec::new(),
            election_timeout: millis(1000),
            heartbeat_interval: millis(300),
            snapshot_threshold: 10000,
            max_payload_entries: 100,
            install_snapshot_timeout: secs(60),
            send_timeout: secs(5),
        }
    }
}

/// The configuration read from the environment: each variable's value if
/// it is set.
#[derive(Debug)]
pub struct RaftEnv {
    pub node_id: Option<String>,
    pub cluster_name: Option<String>,
    pub listen_addr: Option<String>,
    pub advertise_addr: Option<String>,
    pub peers: Option<String>,
}

/// Splits `s` at its commas, with `done` the pieces already cut and `cur`
/// the piece being read.
pub open spec fn split_from(s: Seq<char>, done: Seq<Seq<char>>, cur: Seq<char>) -> Seq<Seq<char>>
    decreases s.len(),
{
    if s.len() == 0 {
        done.push(cur)
    } else if s[0] == ',' {
        split_from(s.drop_first(), done.push(cur), Seq::empty())
    } else {
        split_from(s.drop_first(), done, cur.push(s[0]))
    }
}

/// The pieces of `s` between its commas, as `str::split(',')` gives them.
pub open spec fn split_commas(s: Seq<char>) -> Seq<Seq<char>> {
    split_from(s, Seq::empty(), Seq::empty())
}

/// The peer addresses a comma-separated list names: each piece between
/// commas, trimmed.
pub fn peers_from_list(list: &str) -> (r: Vec<String>)
    ensures
        r@.len() == split_commas(list@).len(),
        forall|k: int| 0 <= k < r@.len() ==> #[trigger] r@[k]@ == trim_spec(split_commas(list@)[k]),
{
    let n = list.unicode_len();
    let ghost s = list@;
    let ghost mut done: Seq<Seq<char>> = Seq::empty();
    let mut out: Vec<String> = Vec::new();
    let mut start: usize = 0;
    let mut i: usize = 0;
    proof {
        assert(s.subrange(0, n as int) =~= s);
        assert(s.subrange(0, 0) =~= Seq::<char>::empty());
    }
    while i < n
        invariant
            n == s.len(),
            s == list@,
            0 <= start <= i <= n,
            split_from(s.subrange(i as int, n as int), done, s.subrange(start as int, i as int))
                == split_commas(s),
            out@.len() == done.len(),
            forall|k: int| 0 <= k < out@.len() ==> #[trigger] out@[k]@ == trim_spec(done[k]),
        decreases n - i,
    {
        let ghost rest = s.subrange(i as int, n as int);
        proof {
            assert(rest[0] == s[i as int]);
            assert(rest.drop_first() =~= s.subrange(i + 1, n as int));
        }
        if list.get_char(i) == ',' {
            let piece = list.substring_char(start, i);
            out.push(text(trim(piece)));
            proof {
                done = done.push(s.subrange(start as int, i as int));
                assert(s.subrange(i + 1, i + 1) =~= Seq::<char>::empty());
            }
            start = i + 1;
        } else {
            proof {
                assert(s.subrange(start as int, i as int).push(s[i as int]) =~= s.subrange(
                    start as int,
                    i + 1,
                ));
            }
        }
        i = i + 1;
    }
    let piece = list.substring_char(start, n);
    out.push(text(trim(piece)));
    proof {
        assert(s.subrange(n as int, n as int) =~= Seq::<char>::empty());
        done = done.push(s.subrange(start as int, n as int));
    }
    out
}

impl RaftConfig {
    /// A builder starting from the default configuration.
    pub fn builder() -> (b: RaftConfigBuilder)
        ensures
            is_default_config(b.config),
    {
        RaftConfigBuilder::default()
    }

    /// The default configuration with the values of the set variables:
    /// `RAFT_NODE_ID`, `RAFT_CLUSTER_NAME`, `RAFT_LISTEN_ADDR`,
    /// `RAFT_ADVERTISE_ADDR` and `RAFT_PEERS`, a comma-separated list. A
    /// node id that is not a number is refused.
    pub fn from_env(env: RaftEnv) -> (r: Result<Self, OperatorError>)
        ensures
            match env.node_id {
                Some(v) => parse_u64_spec(v@) is None,
                None => false,
            } ==> (r matches Err(OperatorError::ConfigError(m)) && m@ == "Invalid RAFT_NODE_ID"@),
            match env.node_id {
                Some(v) => parse_u64_spec(v@) is Some,
                None => true,
            } ==> (r matches Ok(c) && c.node_id == match env.node_id {
                Some(v) => parse_u64_spec(v@)->Some_0,
                None => 0,
            } && c.cluster_name@ == match env.cluster_name {
                Some(v) => v@,
                None => "operator"@,
            } && c.listen_addr@ == match env.listen_addr {
                Some(v) => v@,
                None => "0.0.0.0:5000"@,
            } && c.advertise_addr@ == match env.advertise_addr {
                Some(v) => v@,
                None => "localhost:5000"@,
            } && match env.peers {
                Some(v) => c.peer_addresses@.len() == split_commas(v@).len() && forall|k: int|
                    0 <= k < c.peer_addresses@.len() ==> #[trigger] c.peer_addresses@[k]@
                        == trim_spec(split_commas(v@)[k]),
                None => c.peer_addresses@.len() == 0,
            } && duration_nanos(c.election_timeout) == 1_000_000_000 && duration_nanos(
                c.heartbeat_interval,
            ) == 300_000_000 && c.snapshot_threshold == 10000 && c.max_payload_entries == 100
                && duration_nanos(c.install_snapshot_timeout) == 60_000_000_000 && duration_nanos(
                c.send_timeout,
            ) == 5_000_000_000),
    {
        let mut config = RaftConfig::default();
        if let Some(v) = &env.node_id {
            match parse_u64(v.as_str()) {
                Some(id) => {
                    config.node_id = id;
                },
                None => {
                    return Err(OperatorError::ConfigError(text("Invalid RAFT_NODE_ID")));
                },
            }
        }
        if let Some(v) = env.cluster_name {
            config.cluster_name = v;
        }
        if let Some(v) = env.listen_addr {
            config.listen_addr = v;
        }
        if let Some(v) = env.advertise_addr {
            config.advertise_addr = v;
        }
        if let Some(v) = &env.peers {
            config.peer_addresses = peers_from_list(v.as_str());
        }
        Ok(config)
    }
}

/// Builds a Raft configuration step by step from the default one.
#[derive(Debug)]
pub struct RaftConfigBuilder {
    pub config: RaftConfig,
}

impl Default for RaftConfigBuilder {
    /// A builder holding the default configuration.
    fn default() -> (b: Self)
        ensures
            is_default_config(b.config),
    {
        RaftConfigBuilder { config: RaftConfig::default() }
    }
}

/// Two configurations agree on every field but the addresses and peers.
pub open spec fn same_but_addresses(a: RaftConfig, b: RaftConfig) -> bool {
    &&& a.node_id == b.node_id
    &&& a.cluster_name == b.cluster_name
    &&& a.election_timeout == b.election_timeout
    &&& a.heartbeat_interval == b.heartbeat_interval
    &&& a.snapshot_threshold == b.snapshot_threshold
    &&& a.max_payload_entries == b.max_payload_entries
    &&& a.install_snapshot_timeout == b.install_snapshot_timeout
    &&& a.send_timeout == b.send_timeout
}

/// Two configurations have the same addresses and peers.
pub open spec fn same_addresses(a: RaftConfig, b: RaftConfig) -> bool {
    &&& a.listen_addr == b.listen_addr
    &&& a.advertise_addr == b.advertise_addr
    &&& a.peer_addresses == b.peer_addresses
}

impl RaftConfigBuilder {
    /// Sets the node id.
    pub fn node_id(self, id: u64) -> (b: Self)
        ensures
            b.config.node_id == id,
            b.config.cluster_name == self.config.cluster_name,
            same_addresses(b.config, self.config),
            b.config.election_timeout == self.config.election_timeout,
            b.config.heartbeat_interval == self.config.heartbeat_interval,
            b.config.snapshot_threshold == self.config.snapshot_threshold,
            b.config.max_payload_entries == self.config.max_payload_entries,
            b.config.install_snapshot_timeout == self.config.install_snapshot_timeout,
            b.config.send_timeout == self.config.send_timeout,
    {
        RaftConfigBuilder { config: RaftConfig { node_id: id, ..self.config } }
    }

    /// Sets the cluster name.
    pub fn cluster_name(self, name: &str) -> (b: Self)
        ensures
            b.config.cluster_name@ == name@,
            b.config.node_id == self.config.node_id,
            same_addresses(b.config, self.config),
            b.config.election_timeout == self.config.election_timeout,
            b.config.heartbeat_interval == self.config.heartbeat_interval,
            b.config.snapshot_threshold == self.config.snapshot_threshold,
            b.config.max_payload_entries == self.config.max_payload_entries,
            b.config.install_snapshot_timeout == self.config.install_snapshot_timeout,
            b.config.send_timeout == self.config.send_timeout,
    {
        RaftConfigBuilder { config: RaftConfig { cluster_name: text(name), ..self.config } }
    }

    /// Sets the address to listen on.
    pub fn listen_addr(self, addr: &str) -> (b: Self)
        ensures
            b.config.listen_addr@ == addr@,
            b.config.advertise_addr == self.config.advertise_addr,
            b.config.peer_addresses == self.config.peer_addresses,
            same_but_addresses(b.config, self.config),
    {
        RaftConfigBuilder { config: RaftConfig { listen_addr: text(addr), ..self.config } }
    }

    /// Sets the address to advertise.
    pub fn advertise_addr(self, addr: &str) -> (b: Self)
        ensures
            b.config.advertise_addr@ == addr@,
            b.config.listen_addr == self.config.listen_addr,
            b.config.peer_addresses == self.config.peer_addresses,
            same_but_addresses(b.config, self.config),
    {
        RaftConfigBuilder { config: RaftConfig { advertise_addr: text(addr), ..self.config } }
    }

    /// Adds a peer address at the end of the list.
    pub fn peer(self, addr: &str) -> (b: Self)
        ensures
            b.config.peer_addresses@.len() == self.config.peer_addresses@.len() + 1,
            b.config.peer_addresses@.drop_last() == self.config.peer_addresses@,
            b.config.peer_addresses@.last()@ == addr@,
            b.config.listen_addr == self.config.listen_addr,
            b.config.advertise_addr == self.config.advertise_addr,
            same_but_addresses(b.config, self.config),
    {
        let mut config = self.config;
        config.peer_addresses.push(text(addr));
        RaftConfigBuilder { config }
    }

    /// Replaces the peer addresses.
    pub fn peers(self, addrs: Vec<String>) -> (b: Self)
        ensures
            b.config.peer_addresses == addrs,
            b.config.listen_addr == self.config.listen_addr,
            b.config.advertise_addr == self.config.advertise_addr,
            same_but_addresses(b.config, self.config),
    {
        RaftConfigBuilder { config: RaftConfig { peer_addresses: addrs, ..self.config } }
    }

    /// Sets the election timeout.
    pub fn election_timeout(self, timeout: Duration) -> (b: Self)
        ensures
            b.config.election_timeout == timeout,
            b.config.node_id == self.config.node_id,
            b.config.cluster_name == self.config.cluster_name,
            same_addresses(b.config, self.config),
            b.config.heartbeat_interval == self.config.heartbeat_interval,
            b.config.snapshot_threshold == self.config.snapshot_threshold,
            b.config.max_payload_entries == self.config.max_payload_entries,
            b.config.install_snapshot_timeout == self.config.install_snapshot_timeout,
            b.config.send_timeout == self.config.send_timeout,
    {
        RaftConfigBuilder { config: RaftConfig { election_timeout: timeout, ..self.config } }
    }

    /// Sets the heartbeat interval.
    pub fn heartbeat_interval(self, interval: Duration) -> (b: Self)
        ensures
            b.config.heartbeat_interval == interval,
            b.config.node_id == self.config.node_id,
            b.config.cluster_name == self.config.cluster_name,
            same_addresses(b.config, self.config),
            b.config.election_timeout == self.config.election_timeout,
            b.config.snapshot_threshold == self.config.snapshot_threshold,
            b.config.max_payload_entries == self.config.max_payload_entries,
            b.config.install_snapshot_timeout == self.config.install_snapshot_timeout,
            b.config.send_timeout == self.config.send_timeout,
    {
        RaftConfigBuilder { config: RaftConfig { heartbeat_interval: interval, ..self.config } }
    }

    /// Sets how many entries a snapshot covers.
    pub fn snapshot_threshold(self, threshold: u64) -> (b: Self)
        ensures
            b.config.snapshot_threshold == threshold,
            b.config.node_id == self.config.node_id,
            b.config.cluster_name == self.config.cluster_name,
            same_addresses(b.config, self.config),
            b.config.election_timeout == self.config.election_timeout,
            b.config.heartbeat_interval == self.config.heartbeat_interval,
            b.config.max_payload_entries == self.config.max_payload_entries,
            b.config.install_snapshot_timeout == self.config.install_snapshot_timeout,
            b.config.send_timeout == self.config.send_timeout,
    {
        RaftConfigBuilder { config: RaftConfig { snapshot_threshold: threshold, ..self.config } }
    }

    /// The configuration built.
    pub fn build(self) -> (c: RaftConfig)
        ensures
            c == self.config,
    {
        self.config
    }
}

/// The headless service behind which the pods of a stateful set run,
/// polled at an interval.
#[derive(Debug)]
pub struct HeadlessServiceDiscovery {
    pub service_name: String,
    pub namespace: String,
    pub port: u16,
    pub refresh_interval: Duration,
}

/// The DNS name of the pod with ordinal `ordinal`: the service's name
/// without its `-headless` endings, a dash and the ordinal, under the
/// service's DNS name.
pub open spec fn pod_dns_name_text(service: Seq<char>, namespace: Seq<char>, ordinal: u64) -> Seq<
    char,
> {
    trim_suffix(service, "-headless"@) + "-"@ + decimal(ordinal as nat) + "."@ + service + "."@
        + namespace + ".svc.cluster.local"@
}

impl HeadlessServiceDiscovery {
    /// The service `service_name` in `namespace`, on `port`, polled every
    /// ten seconds.
    pub fn new(service_name: &str, namespace: &str, port: u16) -> (d: Self)
        ensures
            d.service_name@ == service_name@,
            d.namespace@ == namespace@,
            d.port == port,
            duration_nanos(d.refresh_interval) == 10_000_000_000,
    {
        HeadlessServiceDiscovery {
            service_name: text(service_name),
            namespace: text(namespace),
            port,
            refresh_interval: secs(10),
        }
    }

    /// Sets the polling interval.
    pub fn with_refresh_interval(self, interval: Duration) -> (d: Self)
        ensures
            d.refresh_interval == interval,
            d.service_name == self.service_name,
            d.namespace == self.namespace,
            d.port == self.port,
    {
        HeadlessServiceDiscovery { refresh_interval: interval, ..self }
    }

    /// The service's DNS name.
    pub fn dns_name(&self) -> (r: String)
        ensures
            r@ == self.service_name@ + "."@ + self.namespace@ + ".svc.cluster.local"@,
    {
        self.service_name.clone().concat(".").concat(self.namespace.as_str()).concat(
            ".svc.cluster.local",
        )
    }

    /// The DNS name of the pod with ordinal `ordinal`.
    pub fn pod_dns_name(&self, ordinal: u64) -> (r: String)
        ensures
            r@ == pod_dns_name_text(self.service_name@, self.namespace@, ordinal),
    {
        text(trim_end_matches(self.service_name.as_str(), "-headless")).concat("-").concat(
            decimal_string(ordinal).as_str(),
        ).concat(".").concat(self.service_name.as_str()).concat(".").concat(
            self.namespace.as_str(),
        ).concat(".svc.cluster.local")
    }

    /// The host and port to resolve for the pod with ordinal `ordinal`.
    pub fn ordinal_target(&self, ordinal: u64) -> (r: String)
        ensures
            r@ == pod_dns_name_text(self.service_name@, self.namespace@, ordinal) + ":"@ + decimal(
                self.port as nat,
            ),
    {
        self.pod_dns_name(ordinal).concat(":").concat(decimal_string(self.port as u64).as_str())
    }

    /// The peers found by resolving each ordinal: `resolved[i]` is the
    /// first address of pod `i`, when it resolved. Each resolved pod is a
    /// peer with that address and the service's port.
    pub fn discover_by_ordinal(&self, resolved: &Vec<Option<String>>) -> (peers: HashMap<u64, BasicNode>)
        requires
            resolved@.len() <= u64::MAX,
        ensures
            forall|k: u64|
                #[trigger] peers@.contains_key(k) <==> (k < resolved@.len()
                    && resolved@[k as int] is Some),
            forall|k: u64|
                #[trigger] peers@.contains_key(k) ==> peers@[k].addr@ == resolved@[k as int]->Some_0@
                    + ":"@ + decimal(self.port as nat),
    {
        let mut peers: HashMap<u64, BasicNode> = HashMap::new();
        let mut i: usize = 0;
        while i < resolved.len()
            invariant
                0 <= i <= resolved@.len(),
                resolved@.len() <= u64::MAX,
                forall|k: u64|
                    #[trigger] peers@.contains_key(k) <==> (k < i && resolved@[k as int] is Some),
                forall|k: u64|
                    #[trigger] peers@.contains_key(k) ==> peers@[k].addr@ == resolved@[k as int]->Some_0@
                        + ":"@ + decimal(self.port as nat),
            decreases resolved@.len() - i,
        {
            if let Some(ip) = &resolved[i] {
                let addr = ip.clone().concat(":").concat(decimal_string(self.port as u64).as_str());
                peers.insert(i as u64, BasicNode { addr });
            }
            i = i + 1;
        }
        peers
    }
}

/// Peers given by a fixed list.
#[derive(Debug)]
pub struct StaticDiscovery {
    peers: HashMap<u64, BasicNode>,
}

impl View for StaticDiscovery {
    type V = Map<u64, BasicNode>;

    closed spec fn view(&self) -> Map<u64, BasicNode> {
        self.peers@
    }
}

impl Default for StaticDiscovery {
    /// No peer.
    fn default() -> (d: Self)
        ensures
            d@ == Map::<u64, BasicNode>::empty(),
    {
        StaticDiscovery::new()
    }
}

impl StaticDiscovery {
    /// No peer.
    pub fn new() -> (d: Self)
        ensures
            d@ == Map::<u64, BasicNode>::empty(),
    {
        StaticDiscovery { peers: HashMap::new() }
    }

    /// Adds peer `node_id` at `addr`, replacing an earlier address.
    pub fn add_peer(self, node_id: u64, addr: &str) -> (d: Self)
        ensures
            d@.dom() == self@.dom().insert(node_id),
            d@[node_id].addr@ == addr@,
            forall|k: u64| k != node_id && #[trigger] self@.contains_key(k) ==> d@[k] == self@[k],
    {
        let mut peers = self.peers;
        peers.insert(node_id, BasicNode { addr: text(addr) });
        StaticDiscovery { peers }
    }

    /// The peers of a list of addresses, numbered from 0 in order.
    pub fn from_addresses(addresses: Vec<String>) -> (d: Self)
        requires
            addresses@.len() <= u64::MAX,
        ensures
            forall|k: u64| #[trigger] d@.contains_key(k) <==> k < addresses@.len(),
            forall|k: u64| #[trigger] d@.contains_key(k) ==> d@[k].addr == addresses@[k as int],
    {
        let mut peers: HashMap<u64, BasicNode> = HashMap::new();
        let mut i: usize = 0;
        while i < addresses.len()
            invariant
                0 <= i <= addresses@.len(),
                addresses@.len() <= u64::MAX,
                forall|k: u64| #[trigger] peers@.contains_key(k) <==> k < i,
                forall|k: u64| #[trigger] peers@.contains_key(k) ==> peers@[k].addr == addresses@[k as int],
            decreases addresses@.len() - i,
        {
            let addr = addresses[i].clone();
            peers.insert(i as u64, BasicNode { addr });
            i = i + 1;
        }
        StaticDiscovery { peers }
    }

    /// The peers.
    pub fn peers(&self) -> (r: &HashMap<u64, BasicNode>)
        ensures
            r@ == self@,
    {
        &self.peers
    }

    /// The peers, taken out.
    pub fn into_peers(self) -> (r: HashMap<u64, BasicNode>)
        ensures
            r@ == self@,
    {
        self.peers
    }
}

} // verus!
