use k8s_operator::error::Error;
use k8s_operator::raft::cert_reload::{latest_mtime, later_of, CertWatch};
use k8s_operator::raft::cluster::{peer_address, MembershipWatch};
use k8s_operator::raft::config::{RaftConfig, TlsConfig, TlsMode};
use k8s_operator::raft::discovery::{peers_from_count, HeadlessServiceDiscovery};
use k8s_operator::raft::health::{handle, is_health_path, leadership_update, RaftStatus, ServerRole};
use k8s_operator::raft::idset::IdSet;
use k8s_operator::raft::network::{client_endpoint, client_tls_files, server_tls_files, GrpcNetworkFactory};
use k8s_operator::raft::node::{node_address, node_id_from_hostname, pod_name_or_default, raft_timings};
use std::time::Duration;

fn ids(v: &[u64]) -> IdSet {
    IdSet::from_ids(&v.to_vec())
}

fn listed(s: &IdSet) -> Vec<u64> {
    s.ids().clone()
}

#[test]
fn node_id_from_hostname_parses_correctly() {
    assert_eq!(node_id_from_hostname("my-operator-0").unwrap(), 0);
    assert_eq!(node_id_from_hostname("my-operator-42").unwrap(), 42);
    assert_eq!(node_id_from_hostname("complex-app-name-operator-123").unwrap(), 123);
}

#[test]
fn node_id_from_hostname_errors_on_invalid() {
    assert!(node_id_from_hostname("no-number-suffix").is_err());
    assert!(node_id_from_hostname("operator-").is_err());
    match node_id_from_hostname("operator-") {
        Err(Error::Other(m)) => assert_eq!(m, "Failed to parse node ID from operator-"),
        _ => panic!("expected a parse failure"),
    }
    match node_id_from_hostname("standalone") {
        Err(Error::Other(m)) => assert_eq!(m, "Invalid hostname format: standalone"),
        _ => panic!("expected a format failure"),
    }
    assert!(node_id_from_hostname("op-99999999999999999999").is_err());
}

#[test]
fn node_addresses_follow_the_pod_name() {
    let config = RaftConfig::new("c").node_id(7).service_name("svc").namespace("ns");
    assert_eq!(pod_name_or_default(None, 7), "pod-7");
    assert_eq!(pod_name_or_default(Some("web-2"), 7), "web-2");
    assert_eq!(node_address(&config, Some("web-2")), "web-2.svc.ns.svc.cluster.local:8080");
    assert_eq!(node_address(&config, None), "pod-7.svc.ns.svc.cluster.local:8080");
}

#[test]
fn raft_timings_come_from_the_config() {
    let config = RaftConfig::new("c")
        .election_timeout(Duration::from_millis(750))
        .heartbeat_interval(Duration::from_micros(150_900));
    let t = raft_timings(&config);
    assert_eq!(t.election_timeout_min, 750);
    assert_eq!(t.election_timeout_max, 1500);
    assert_eq!(t.heartbeat_interval, 150);
}

#[test]
fn id_sets_are_sorted_sets() {
    let mut s = ids(&[5, 1, 3, 1, 5]);
    assert_eq!(listed(&s), vec![1, 3, 5]);
    assert_eq!(s.len(), 3);
    assert!(s.contains(3) && !s.contains(2));
    s.insert(2);
    s.insert(3);
    assert_eq!(listed(&s), vec![1, 2, 3, 5]);
    s.remove(1);
    assert_eq!(listed(&s), vec![2, 3, 5]);
    assert_eq!(listed(&s.difference(&ids(&[3, 9]))), vec![2, 5]);
    assert!(IdSet::new().ids().is_empty());
}

#[test]
fn membership_watch_follows_discovery_on_the_leader() {
    let mut w = MembershipWatch::new();
    assert!(w.observe(false, Some(ids(&[0, 1]))).is_none());
    assert!(listed(w.known()).is_empty());
    let c = w.observe(true, Some(ids(&[0, 1, 2]))).unwrap();
    assert_eq!(listed(&c.added), vec![0, 1, 2]);
    assert!(listed(&c.removed).is_empty());
    assert!(w.observe(true, None).is_none());
    assert_eq!(listed(w.known()), vec![0, 1, 2]);
    let c = w.observe(true, Some(ids(&[0, 2, 3]))).unwrap();
    assert_eq!(listed(&c.added), vec![3]);
    assert_eq!(listed(&c.removed), vec![1]);
    assert_eq!(listed(w.known()), vec![0, 2, 3]);
}

#[test]
fn discovery_names_the_service_and_its_peers() {
    let d = HeadlessServiceDiscovery::new("my-operator-headless", "prod", 8080);
    assert_eq!(d.service_name(), "my-operator-headless");
    assert_eq!(d.namespace(), "prod");
    assert_eq!(d.port(), 8080);
    assert_eq!(d.lookup_target(), "my-operator-headless.prod.svc.cluster.local:8080");
    assert_eq!(
        peer_address(&d, 2),
        "my-operator-2.my-operator-headless.prod.svc.cluster.local:8080"
    );
    let plain = HeadlessServiceDiscovery::new("raft", "ns", 9000);
    assert_eq!(peer_address(&plain, 0), "raft-0.raft.ns.svc.cluster.local:9000");
    assert_eq!(listed(&peers_from_count(3)), vec![0, 1, 2]);
    assert!(listed(&peers_from_count(0)).is_empty());
}

fn status() -> RaftStatus {
    RaftStatus {
        running: true,
        current_leader: Some(1),
        current_term: 4,
        state: ServerRole::Follower,
        last_log_index: Some(10),
        last_applied: Some(7),
        snapshot_index: None,
        voters: 3,
    }
}

#[test]
fn health_endpoints_answer_as_json() {
    let s = status();
    let r = handle(true, "/health", 2, false, &s);
    assert_eq!((r.status, r.body.as_str()), (200, r#"{"status":"ok"}"#));
    let r = handle(true, "/ready", 2, false, &s);
    assert_eq!((r.status, r.body.as_str()), (200, r#"{"status":"ready"}"#));
    let r = handle(true, "/leader", 2, false, &s);
    assert_eq!(
        r.body,
        r#"{"node_id":2,"is_leader":false,"current_leader":1,"current_term":4,"state":"Follower"}"#
    );
    let r = handle(true, "/metrics", 2, false, &s);
    assert_eq!(r.status, 200);
    assert_eq!(
        r.body,
        r#"{"node_id":2,"last_log_index":10,"last_applied":7,"log_size":3,"snapshot_index":0,"current_term":4,"state":"Follower","members":3}"#
    );
    let r = handle(false, "/health", 2, false, &s);
    assert_eq!((r.status, r.body.as_str()), (404, r#"{"error":"not_found"}"#));
    let r = handle(true, "/nope", 2, false, &s);
    assert_eq!(r.status, 404);
}

#[test]
fn readiness_names_what_is_missing() {
    let mut s = status();
    s.current_leader = None;
    let r = handle(true, "/ready", 0, false, &s);
    assert_eq!(r.status, 503);
    assert_eq!(r.body, r#"{"status":"not_ready","reason":"no_leader"}"#);
    s.running = false;
    let r = handle(true, "/ready", 0, false, &s);
    assert_eq!(r.body, r#"{"status":"not_ready","reason":"raft_not_initialized"}"#);
    let r = handle(true, "/leader", 0, true, &s);
    assert_eq!(
        r.body,
        r#"{"node_id":0,"is_leader":true,"current_leader":null,"current_term":4,"state":"Follower"}"#
    );
}

#[test]
fn certificates_reload_only_when_newer() {
    assert_eq!(later_of(Some(3), Some(9)), Some(9));
    assert_eq!(later_of(None, Some(2)), Some(2));
    assert_eq!(latest_mtime(Some(5), None, Some(4)), Some(5));
    assert_eq!(latest_mtime(None, None, None), None);
    let mut w = CertWatch::new();
    assert!(!w.check(None));
    assert!(!w.check(Some(10)));
    assert_eq!(w.last_modified, Some(10));
    assert!(!w.check(Some(10)));
    assert!(!w.check(Some(8)));
    assert!(w.check(Some(12)));
    assert_eq!(w.last_modified, Some(12));
    assert!(!w.check(None));
    assert_eq!(w.last_modified, Some(12));
}

#[test]
fn clients_pick_scheme_and_files() {
    assert_eq!(client_endpoint("10.0.0.1:8080", false), "http://10.0.0.1:8080");
    assert_eq!(client_endpoint("node:8080", true), "https://node:8080");
    assert!(!GrpcNetworkFactory::new().use_tls);
    assert!(GrpcNetworkFactory::with_tls(true).use_tls);
    let plain = TlsConfig::disabled();
    let f = client_tls_files(&plain, None).unwrap();
    assert!(f.ca_cert.is_none() && f.identity.is_none());
    let tls = TlsConfig::tls("/ca.pem");
    let f = client_tls_files(&tls, None).unwrap();
    assert_eq!(f.ca_cert.map(|s| s.as_str()), Some("/ca.pem"));
    assert!(f.identity.is_none());
    let m = TlsConfig::mtls("/ca", "/crt", "/key");
    let f = client_tls_files(&m, None).unwrap();
    let (c, k) = f.identity.unwrap();
    assert_eq!((c.as_str(), k.as_str()), ("/crt", "/key"));
    let broken = TlsConfig { mode: TlsMode::Mtls, ca_cert: None, cert: None, key: Some("/k".into()) };
    assert_eq!(client_tls_files(&broken, None).unwrap_err(), "mTLS requires cert path");
    let broken = TlsConfig { mode: TlsMode::Mtls, ca_cert: None, cert: Some("/c".into()), key: None };
    assert_eq!(client_tls_files(&broken, None).unwrap_err(), "mTLS requires key path");
}

#[test]
fn unreadable_ca_is_reported_before_missing_identity() {
    let broken = TlsConfig { mode: TlsMode::Mtls, ca_cert: Some("/ca".into()), cert: None, key: None };
    assert_eq!(
        client_tls_files(&broken, Some("not found")).unwrap_err(),
        "Failed to read CA cert: not found"
    );
    let no_ca = TlsConfig { mode: TlsMode::Mtls, ca_cert: None, cert: None, key: None };
    assert_eq!(client_tls_files(&no_ca, Some("ignored")).unwrap_err(), "mTLS requires cert path");
    let tls = TlsConfig::tls("/ca.pem");
    assert!(client_tls_files(&tls, Some("denied")).is_err());
}

#[test]
fn raft_config_defaults_and_builders() {
    let c = RaftConfig::new("prod");
    assert_eq!(c.node_id, 0);
    assert_eq!(c.cluster_name, "prod");
    assert_eq!(c.service_name, "");
    assert_eq!(c.namespace, "default");
    assert_eq!(c.election_timeout, Duration::from_millis(500));
    assert_eq!(c.heartbeat_interval, Duration::from_millis(100));
    assert_eq!(c.snapshot_threshold, 1000);
    assert!(!c.tls.is_enabled());
    assert_eq!(c.drain_timeout, Duration::from_secs(5));
    assert_eq!(c.cert_reload_interval, Duration::from_secs(30));
    let c = c
        .node_id(3)
        .service_name("svc")
        .namespace("ns")
        .snapshot_threshold(50)
        .drain_timeout(Duration::from_secs(1))
        .cert_reload_interval(Duration::from_secs(2))
        .compaction(CompactionConfigFor::make());
    assert_eq!((c.node_id, c.service_name.as_str(), c.namespace.as_str()), (3, "svc", "ns"));
    assert_eq!(c.snapshot_threshold, 50);
    assert_eq!(c.compaction.log_entries_threshold, 7);
    let t = c.clone().use_tls(true);
    assert!(t.tls.is_enabled() && !t.tls.is_mtls());
    let u = c.use_tls(false);
    assert!(!u.tls.is_enabled());
    let m = RaftConfig::new("x").tls(TlsConfig::mtls("a", "b", "c"));
    assert!(m.tls.is_enabled() && m.tls.is_mtls());
    assert_eq!(TlsMode::default(), TlsMode::Disabled);
}

struct CompactionConfigFor;

impl CompactionConfigFor {
    fn make() -> k8s_operator::raft::config::CompactionConfig {
        k8s_operator::raft::config::CompactionConfig::default()
            .log_entries_threshold(7)
            .check_interval(Duration::from_secs(9))
    }
}

#[test]
fn leadership_changes_are_recorded_once() {
    assert_eq!(leadership_update(false, ServerRole::Leader), Some(true));
    assert_eq!(leadership_update(true, ServerRole::Leader), None);
    assert_eq!(leadership_update(true, ServerRole::Candidate), Some(false));
    assert_eq!(leadership_update(false, ServerRole::Follower), None);
}

#[test]
fn health_paths_are_recognised() {
    for p in ["/health", "/ready", "/leader", "/metrics"] {
        assert!(is_health_path(p));
    }
    assert!(!is_health_path("/raft.RaftService/Vote"));
    assert!(!is_health_path("/healthz"));
}

#[test]
fn servers_need_a_certificate_and_key() {
    let none = TlsConfig::tls("/ca");
    assert_eq!(server_tls_files(&none).unwrap_err(), "TLS requires cert path");
    let no_key = TlsConfig { mode: TlsMode::Tls, ca_cert: None, cert: Some("/c".into()), key: None };
    assert_eq!(server_tls_files(&no_key).unwrap_err(), "TLS requires key path");
    let tls = TlsConfig { mode: TlsMode::Tls, ca_cert: Some("/ca".into()), cert: Some("/c".into()), key: Some("/k".into()) };
    let f = server_tls_files(&tls).unwrap();
    assert_eq!((f.cert.as_str(), f.key.as_str()), ("/c", "/k"));
    assert!(f.client_ca.is_none());
    let m = TlsConfig::mtls("/ca", "/c", "/k");
    let f = server_tls_files(&m).unwrap();
    assert_eq!(f.client_ca.map(|s| s.as_str()), Some("/ca"));
}
