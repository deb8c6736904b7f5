//! The configuration of a Raft node: timing, log compaction and transport
//! security. Certificate and key files are named by their paths, as text.
use crate::text::text;
use crate::time::{duration_nanos, millis, secs};
use std::time::Duration;
use vstd::prelude::*;

verus! {

/// When the log is compacted: once this many entries are not yet in a
/// snapshot, or once this much time has passed since the last
/// compaction; checked at every interval.
#[derive(Debug)]
pub struct CompactionConfig {
    pub log_entries_threshold: u64,
    pub time_threshold: Duration,
    pub check_interval: Duration,
}

impl Clone for CompactionConfig {
    /// The same thresholds and interval.
    fn clone(&self) -> (c: Self)
        ensures
            c == *self,
    {
        CompactionConfig {
            log_entries_threshold: self.log_entries_threshold,
            time_threshold: self.time_threshold,
            check_interval: self.check_interval,
        }
    }
}

impl Default for CompactionConfig {
    /// A thousand entries or an hour, checked every minute.
    fn default() -> (c: Self)
        ensures
            c.log_entries_threshold == 1000,
            duration_nanos(c.time_threshold) == 3_600_000_000_000,
            duration_nanos(c.check_interval) == 60_000_000_000,
    {
        CompactionConfig {
            log_entries_threshold: 1000,
            time_threshold: secs(3600),
            check_interval: secs(60),
        }
    }
}

impl CompactionConfig {
    /// Sets the entry threshold.
    pub fn log_entries_threshold(self, threshold: u64) -> (c: Self)
        ensures
            c.log_entries_threshold == threshold,
            c.time_threshold == self.time_threshold,
            c.check_interval == self.check_interval,
    {
        CompactionConfig { log_entries_threshold: threshold, ..self }
    }

    /// Sets the time threshold.
    pub fn time_threshold(self, threshold: Duration) -> (c: Self)
        ensures
            c.time_threshold == threshold,
            c.log_entries_threshold == self.log_entries_threshold,
            c.check_interval == self.check_interval,
    {
        CompactionConfig { time_threshold: threshold, ..self }
    }

    /// Sets the check interval.
    pub fn check_interval(self, interval: Duration) -> (c: Self)
        ensures
            c.check_interval == interval,
            c.log_entries_threshold == self.log_entries_threshold,
            c.time_threshold == self.time_threshold,
    {
        CompactionConfig { check_interval: interval, ..self }
    }
}

/// How the transport is secured: not at all, by TLS, or by mutual TLS.
#[derive(Clone, Copy, Debug, PartialEq, Eq, Structural)]
pub enum TlsMode {
    Disabled,
    Tls,
    Mtls,
}

impl Default for TlsMode {
    /// No security.
    fn default() -> (m: Self)
        ensures
            m == TlsMode::Disabled,
    {
        TlsMode::Disabled
    }
}

/// The security of the transport and the paths of the CA certificate,
/// the node's certificate and its key.
#[derive(Debug)]
pub struct TlsConfig {
    pub mode: TlsMode,
    pub ca_cert: Option<String>,
    pub cert: Option<String>,
    pub key: Option<String>,
}

/// The path of an optional file is `p`.
pub open spec fn path_is(o: Option<String>, p: Seq<char>) -> bool {
    o matches Some(s) && s@ == p
}

/// A copy of an optional path.
fn copy_path(o: &Option<String>) -> (r: Option<String>)
    ensures
        r == *o,
{
    match o {
        Some(s) => Some(s.clone()),
        None => None,
    }
}

impl Clone for TlsConfig {
    /// The same mode and files.
    fn clone(&self) -> (t: Self)
        ensures
            t == *self,
    {
        TlsConfig {
            mode: self.mode,
            ca_cert: copy_path(&self.ca_cert),
            cert: copy_path(&self.cert),
            key: copy_path(&self.key),
        }
    }
}

impl Default for TlsConfig {
    /// No security and no file.
    fn default() -> (t: Self)
        ensures
            t.mode == TlsMode::Disabled,
            t.ca_cert is None,
            t.cert is None,
            t.key is None,
    {
        TlsConfig { mode: TlsMode::Disabled, ca_cert: None, cert: None, key: None }
    }
}

impl TlsConfig {
    /// No security.
    pub fn disabled() -> (t: Self)
        ensures
            t.mode == TlsMode::Disabled,
            t.ca_cert is None,
            t.cert is None,
            t.key is None,
    {
        TlsConfig { mode: TlsMode::Disabled, ca_cert: None, cert: None, key: None }
    }

    /// TLS, checking the peer against the CA certificate at `ca_cert`.
    pub fn tls(ca_cert: &str) -> (t: Self)
        ensures
            t.mode == TlsMode::Tls,
            path_is(t.ca_cert, ca_cert@),
            t.cert is None,
            t.key is None,
    {
        TlsConfig { mode: TlsMode::Tls, ca_cert: Some(text(ca_cert)), cert: None, key: None }
    }

    /// Mutual TLS: the CA certificate, and the certificate and key this
    /// node presents.
    pub fn mtls(ca_cert: &str, cert: &str, key: &str) -> (t: Self)
        ensures
            t.mode == TlsMode::Mtls,
            path_is(t.ca_cert, ca_cert@),
            path_is(t.cert, cert@),
            path_is(t.key, key@),
    {
        TlsConfig {
            mode: TlsMode::Mtls,
            ca_cert: Some(text(ca_cert)),
            cert: Some(text(cert)),
            key: Some(text(key)),
        }
    }

    /// The transport is secured.
    pub fn is_enabled(&self) -> (r: bool)
        ensures
            r == (self.mode != TlsMode::Disabled),
    {
        !matches!(self.mode, TlsMode::Disabled)
    }

    /// The transport is secured both ways.
    pub fn is_mtls(&self) -> (r: bool)
        ensures
            r == (self.mode == TlsMode::Mtls),
    {
        matches!(self.mode, TlsMode::Mtls)
    }
}

/// The configuration of a Raft node.
#[derive(Debug)]
pub struct RaftConfig {
    pub node_id: u64,
    pub cluster_name: String,
    pub service_name: String,
    pub namespace: String,
    pub election_timeout: Duration,
    pub heartbeat_interval: Duration,
    pub snapshot_threshold: u64,
    pub tls: TlsConfig,
    pub drain_timeout: Duration,
    pub compaction: CompactionConfig,
    pub cert_reload_interval: Duration,
}

/// Two configurations agree on every field but those a builder step sets;
/// `same_tls` says whether the transport security is kept too.
pub open spec fn same_timing(a: RaftConfig, b: RaftConfig) -> bool {
    &&& a.election_timeout == b.election_timeout
    &&& a.heartbeat_interval == b.heartbeat_interval
    &&& a.snapshot_threshold == b.snapshot_threshold
    &&& a.drain_timeout == b.drain_timeout
    &&& a.compaction == b.compaction
    &&& a.cert_reload_interval == b.cert_reload_interval
}

/// Two configurations name the same node of the same cluster.
pub open spec fn same_identity(a: RaftConfig, b: RaftConfig) -> bool {
    &&& a.node_id == b.node_id
    &&& a.cluster_name == b.cluster_name
    &&& a.service_name == b.service_name
    &&& a.namespace == b.namespace
}

impl Clone for RaftConfig {
    /// The same configuration.
    fn clone(&self) -> (c: Self)
        ensures
            c == *self,
    {
        RaftConfig {
            node_id: self.node_id,
            cluster_name: self.cluster_name.clone(),
            service_name: self.service_name.clone(),
            namespace: self.namespace.clone(),
            election_timeout: self.election_timeout,
            heartbeat_interval: self.heartbeat_interval,
            snapshot_threshold: self.snapshot_threshold,
            tls: self.tls.clone(),
            drain_timeout: self.drain_timeout,
            compaction: self.compaction.clone(),
            cert_reload_interval: self.cert_reload_interval,
        }
    }
}

impl RaftConfig {
    /// Node 0 of cluster `cluster_name` in namespace `default`, with no
    /// service name: elections after 500 ms, heartbeats every 100 ms, a
    /// snapshot every 1000 entries, no transport security, 5 s to drain
    /// on shutdown, default compaction, certificates checked every 30 s.
    pub fn new(cluster_name: &str) -> (c: Self)
        ensures
            c.node_id == 0,
            c.cluster_name@ == cluster_name@,
            c.service_name@ == Seq::<char>::empty(),
            c.namespace@ == "default"@,
            duration_nanos(c.election_timeout) == 500_000_000,
            duration_nanos(c.heartbeat_interval) == 100_000_000,
            c.snapshot_threshold == 1000,
            c.tls.mode == TlsMode::Disabled,
            c.tls.ca_cert is None,
            c.tls.cert is None,
            c.tls.key is None,
            duration_nanos(c.drain_timeout) == 5_000_000_000,
            c.compaction.log_entries_threshold == 1000,
            duration_nanos(c.compaction.time_threshold) == 3_600_000_000_000,
            duration_nanos(c.compaction.check_interval) == 60_000_000_000,
            duration_nanos(c.cert_reload_interval) == 30_000_000_000,
    {
        RaftConfig {
            node_id: 0,
            cluster_name: text(cluster_name),
            service_name: String::new(),
            namespace: text("default"),
            election_timeout: millis(500),
            heartbeat_interval: millis(100),
            snapshot_threshold: 1000,
            tls: TlsConfig::disabled(),
            drain_timeout: secs(5),
            compaction: CompactionConfig::default(),
            cert_reload_interval: secs(30),
        }
    }

    /// Sets the node id.
    pub fn node_id(self, id: u64) -> (c: Self)
        ensures
            c.node_id == id,
            c.cluster_name == self.cluster_name,
            c.service_name == self.service_name,
            c.namespace == self.namespace,
            c.tls == self.tls,
            same_timing(c, self),
    {
        RaftConfig { node_id: id, ..self }
    }

    /// Sets the name of the headless service the nodes sit behind.
    pub fn service_name(self, name: &str) -> (c: Self)
        ensures
            c.service_name@ == name@,
            c.node_id == self.node_id,
            c.cluster_name == self.cluster_name,
            c.namespace == self.namespace,
            c.tls == self.tls,
            same_timing(c, self),
    {
        RaftConfig { service_name: text(name), ..self }
    }

    /// Sets the namespace.
    pub fn namespace(self, ns: &str) -> (c: Self)
        ensures
            c.namespace@ == ns@,
            c.node_id == self.node_id,
            c.cluster_name == self.cluster_name,
            c.service_name == self.service_name,
            c.tls == self.tls,
            same_timing(c, self),
    {
        RaftConfig { namespace: text(ns), ..self }
    }

    /// Sets the election timeout.
    pub fn election_timeout(self, timeout: Duration) -> (c: Self)
        ensures
            c.election_timeout == timeout,
            same_identity(c, self),
            c.tls == self.tls,
            c.heartbeat_interval == self.heartbeat_interval,
            c.snapshot_threshold == self.snapshot_threshold,
            c.drain_timeout == self.drain_timeout,
            c.compaction == self.compaction,
            c.cert_reload_interval == self.cert_reload_interval,
    {
        RaftConfig { election_timeout: timeout, ..self }
    }

    /// Sets the heartbeat interval.
    pub fn heartbeat_interval(self, interval: Duration) -> (c: Self)
        ensures
            c.heartbeat_interval == interval,
            same_identity(c, self),
            c.tls == self.tls,
            c.election_timeout == self.election_timeout,
            c.snapshot_threshold == self.snapshot_threshold,
            c.drain_timeout == self.drain_timeout,
            c.compaction == self.compaction,
            c.cert_reload_interval == self.cert_reload_interval,
    {
        RaftConfig { heartbeat_interval: interval, ..self }
    }

    /// Sets how many entries a snapshot covers.
    pub fn snapshot_threshold(self, threshold: u64) -> (c: Self)
        ensures
            c.snapshot_threshold == threshold,
            same_identity(c, self),
            c.tls == self.tls,
            c.election_timeout == self.election_timeout,
            c.heartbeat_interval == self.heartbeat_interval,
            c.drain_timeout == self.drain_timeout,
            c.compaction == self.compaction,
            c.cert_reload_interval == self.cert_reload_interval,
    {
        RaftConfig { snapshot_threshold: threshold, ..self }
    }

    /// Sets the transport security.
    pub fn tls(self, tls: TlsConfig) -> (c: Self)
        ensures
            c.tls == tls,
            same_identity(c, self),
            same_timing(c, self),
    {
        RaftConfig { tls, ..self }
    }

    /// Sets how long in-flight requests may run on shutdown.
    pub fn drain_timeout(self, timeout: Duration) -> (c: Self)
        ensures
            c.drain_timeout == timeout,
            same_identity(c, self),
            c.tls == self.tls,
            c.election_timeout == self.election_timeout,
            c.heartbeat_interval == self.heartbeat_interval,
            c.snapshot_threshold == self.snapshot_threshold,
            c.compaction == self.compaction,
            c.cert_reload_interval == self.cert_reload_interval,
    {
        RaftConfig { drain_timeout: timeout, ..self }
    }

    /// Sets when the log is compacted.
    pub fn compaction(self, config: CompactionConfig) -> (c: Self)
        ensures
            c.compaction == config,
            same_identity(c, self),
            c.tls == self.tls,
            c.election_timeout == self.election_timeout,
            c.heartbeat_interval == self.heartbeat_interval,
            c.snapshot_threshold == self.snapshot_threshold,
            c.drain_timeout == self.drain_timeout,
            c.cert_reload_interval == self.cert_reload_interval,
    {
        RaftConfig { compaction: config, ..self }
    }

    /// Sets how often the certificate files are checked for changes.
    pub fn cert_reload_interval(self, interval: Duration) -> (c: Self)
        ensures
            c.cert_reload_interval == interval,
            same_identity(c, self),
            c.tls == self.tls,
            c.election_timeout == self.election_timeout,
            c.heartbeat_interval == self.heartbeat_interval,
            c.snapshot_threshold == self.snapshot_threshold,
            c.drain_timeout == self.drain_timeout,
            c.compaction == self.compaction,
    {
        RaftConfig { cert_reload_interval: interval, ..self }
    }

    /// Turns TLS on, with no file named, when `use_tls`; otherwise leaves
    /// the transport security as it is.
    pub fn use_tls(self, use_tls: bool) -> (c: Self)
        ensures
            use_tls ==> c.tls.mode == TlsMode::Tls && c.tls.ca_cert is None && c.tls.cert is None
                && c.tls.key is None,
            !use_tls ==> c.tls == self.tls,
            same_identity(c, self),
            same_timing(c, self),
    {
        if use_tls {
            RaftConfig {
                tls: TlsConfig { mode: TlsMode::Tls, ca_cert: None, cert: None, key: None },
                ..self
            }
        } else {
            self
        }
    }
}

} // verus!
