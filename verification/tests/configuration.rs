use k8s_operator::operator_core::{
    Action, NodeInfo, NodeRole, OperatorConfig, OperatorEnv, OperatorError, ReconcileError,
    ReconcileResult,
};
use k8s_operator::raft_support::{
    peers_from_list, HeadlessServiceDiscovery, RaftConfig, RaftEnv, StaticDiscovery,
};
use std::time::Duration;

fn no_env() -> OperatorEnv {
    OperatorEnv {
        node_id: None,
        cluster_name: None,
        namespace: None,
        service_name: None,
        raft_port: None,
        data_dir: None,
    }
}

#[test]
fn actions_and_results() {
    assert!(matches!(Action::requeue(Duration::from_secs(2)), Action::Requeue(d) if d == Duration::from_secs(2)));
    assert!(matches!(Action::requeue_after(Duration::from_secs(3)), Action::RequeueAfter(d) if d == Duration::from_secs(3)));
    assert!(matches!(Action::done(), Action::Done));
    assert!(matches!(Action::await_change(), Action::Requeue(d) if d == Duration::from_secs(300)));
    let r: ReconcileResult = Action::done().into();
    assert!(matches!(r, ReconcileResult::Completed(Action::Done)));
    let r = ReconcileResult::from_result(Err(ReconcileError::NotLeader));
    assert!(matches!(r, ReconcileResult::Failed(ReconcileError::NotLeader)));
}

#[test]
fn operator_config_defaults() {
    let c = OperatorConfig::default();
    assert_eq!(c.node_id, 0);
    assert_eq!(c.cluster_name, "operator");
    assert_eq!(c.namespace, "default");
    assert_eq!(c.service_name, "operator-headless");
    assert_eq!((c.raft_port, c.metrics_port), (5000, 8080));
    assert_eq!(c.data_dir, "/data/raft");
    assert_eq!((c.election_timeout_ms, c.heartbeat_interval_ms), (1000, 300));
    assert_eq!((c.snapshot_threshold, c.max_payload_entries), (10000, 100));
    assert_eq!(
        c.peer_address(2),
        "operator-2.operator-headless.default.svc.cluster.local:5000"
    );
}

#[test]
fn operator_config_reads_the_environment() {
    let c = OperatorConfig::from_env(no_env()).unwrap();
    assert_eq!(c.node_id, 0);
    let env = OperatorEnv {
        node_id: Some("3".to_string()),
        cluster_name: Some("web".to_string()),
        namespace: Some("prod".to_string()),
        service_name: Some("web-raft".to_string()),
        raft_port: Some("6000".to_string()),
        data_dir: Some("/var/raft".to_string()),
    };
    let c = OperatorConfig::from_env(env).unwrap();
    assert_eq!(c.node_id, 3);
    assert_eq!(c.peer_address(1), "web-1.web-raft.prod.svc.cluster.local:6000");
    assert_eq!(c.data_dir, "/var/raft");
    let bad = OperatorEnv { node_id: Some("x".to_string()), ..no_env() };
    match OperatorConfig::from_env(bad) {
        Err(OperatorError::ConfigError(m)) => assert_eq!(m, "Invalid NODE_ID"),
        _ => panic!("expected a refusal"),
    }
    let bad = OperatorEnv { raft_port: Some("70000".to_string()), ..no_env() };
    match OperatorConfig::from_env(bad) {
        Err(OperatorError::ConfigError(m)) => assert_eq!(m, "Invalid RAFT_PORT"),
        _ => panic!("expected a refusal"),
    }
}

#[test]
fn node_info_holds_its_fields() {
    let n = NodeInfo { id: 1, address: "a:1".to_string(), role: NodeRole::Leader, is_healthy: true };
    let m = n.clone();
    assert_eq!(m.id, 1);
    assert_eq!(m.role, NodeRole::Leader);
}

#[test]
fn raft_config_builder_sets_each_field() {
    let d = RaftConfig::default();
    assert_eq!(d.cluster_name, "operator");
    assert_eq!(d.listen_addr, "0.0.0.0:5000");
    assert_eq!(d.advertise_addr, "localhost:5000");
    assert!(d.peer_addresses.is_empty());
    assert_eq!(d.election_timeout, Duration::from_millis(1000));
    assert_eq!(d.heartbeat_interval, Duration::from_millis(300));
    assert_eq!(d.install_snapshot_timeout, Duration::from_secs(60));
    assert_eq!(d.send_timeout, Duration::from_secs(5));
    let c = RaftConfig::builder()
        .node_id(4)
        .cluster_name("c1")
        .listen_addr("0.0.0.0:7000")
        .advertise_addr("n4:7000")
        .peer("n1:7000")
        .peer("n2:7000")
        .election_timeout(Duration::from_millis(800))
        .heartbeat_interval(Duration::from_millis(200))
        .snapshot_threshold(42)
        .build();
    assert_eq!(c.node_id, 4);
    assert_eq!(c.cluster_name, "c1");
    assert_eq!(c.listen_addr, "0.0.0.0:7000");
    assert_eq!(c.advertise_addr, "n4:7000");
    assert_eq!(c.peer_addresses, vec!["n1:7000".to_string(), "n2:7000".to_string()]);
    assert_eq!(c.election_timeout, Duration::from_millis(800));
    assert_eq!(c.heartbeat_interval, Duration::from_millis(200));
    assert_eq!(c.snapshot_threshold, 42);
    let r = RaftConfig::builder().peer("x").peers(vec!["y".to_string()]).build();
    assert_eq!(r.peer_addresses, vec!["y".to_string()]);
}

#[test]
fn raft_config_reads_the_environment() {
    let env = RaftEnv {
        node_id: Some("9".to_string()),
        cluster_name: None,
        listen_addr: Some("0.0.0.0:1".to_string()),
        advertise_addr: None,
        peers: Some(" a:1, b:2 ,c:3".to_string()),
    };
    let c = RaftConfig::from_env(env).unwrap();
    assert_eq!(c.node_id, 9);
    assert_eq!(c.cluster_name, "operator");
    assert_eq!(c.listen_addr, "0.0.0.0:1");
    assert_eq!(c.peer_addresses, vec!["a:1".to_string(), "b:2".to_string(), "c:3".to_string()]);
    let bad = RaftEnv { node_id: Some("-1".to_string()), cluster_name: None, listen_addr: None, advertise_addr: None, peers: None };
    match RaftConfig::from_env(bad) {
        Err(OperatorError::ConfigError(m)) => assert_eq!(m, "Invalid RAFT_NODE_ID"),
        _ => panic!("expected a refusal"),
    }
}

#[test]
fn peer_lists_split_on_commas() {
    assert_eq!(peers_from_list("a"), vec!["a".to_string()]);
    assert_eq!(peers_from_list(""), vec![String::new()]);
    assert_eq!(peers_from_list("a,,b"), vec!["a".to_string(), String::new(), "b".to_string()]);
    assert_eq!(peers_from_list(" x ,y,"), vec!["x".to_string(), "y".to_string(), String::new()]);
}

#[test]
fn headless_discovery_names_pods_by_ordinal() {
    let d = HeadlessServiceDiscovery::new("web-headless", "ns", 5000);
    assert_eq!(d.refresh_interval, Duration::from_secs(10));
    assert_eq!(d.dns_name(), "web-headless.ns.svc.cluster.local");
    assert_eq!(d.pod_dns_name(1), "web-1.web-headless.ns.svc.cluster.local");
    assert_eq!(d.ordinal_target(0), "web-0.web-headless.ns.svc.cluster.local:5000");
    let twice = HeadlessServiceDiscovery::new("a-headless-headless", "ns", 1);
    assert_eq!(twice.pod_dns_name(2), "a-2.a-headless-headless.ns.svc.cluster.local");
    let d = d.with_refresh_interval(Duration::from_secs(1));
    assert_eq!(d.refresh_interval, Duration::from_secs(1));
    let peers = d.discover_by_ordinal(&vec![Some("10.0.0.1".to_string()), None, Some("10.0.0.3".to_string())]);
    assert_eq!(peers.len(), 2);
    assert_eq!(peers[&0].addr, "10.0.0.1:5000");
    assert_eq!(peers[&2].addr, "10.0.0.3:5000");
    assert!(!peers.contains_key(&1));
}

#[test]
fn static_discovery_numbers_addresses() {
    let d = StaticDiscovery::from_addresses(vec!["a:1".to_string(), "b:2".to_string()]);
    assert_eq!(d.peers().len(), 2);
    assert_eq!(d.peers()[&1].addr, "b:2");
    let d = d.add_peer(7, "c:3").add_peer(1, "bb:2");
    let peers = d.into_peers();
    assert_eq!(peers.len(), 3);
    assert_eq!(peers[&1].addr, "bb:2");
    assert_eq!(peers[&7].addr, "c:3");
    assert!(StaticDiscovery::default().peers().is_empty());
}

#[test]
fn peer_list_pieces_are_trimmed() {
    assert_eq!(peers_from_list(" a:1, b:2"), vec!["a:1".to_string(), "b:2".to_string()]);
    assert_eq!(peers_from_list("x:1 ,\ty:2\n"), vec!["x:1".to_string(), "y:2".to_string()]);
}
