use k8s_operator::raft::compaction::{perform_compaction, should_compact};
use k8s_operator::raft::config::CompactionConfig;
use k8s_operator::raft::log::{Entry, EntryPayload, LeaderId, LogId, Vote};
use k8s_operator::raft::storage::MemStoreInner;
use k8s_operator::raft::types::{KeyValueStateMachine, RaftRequest};
use std::time::Duration;

fn log_id(term: u64, index: u64) -> LogId {
    LogId { leader_id: LeaderId { term, node_id: 0 }, index }
}

fn write(index: u64, key: &str, value: &str) -> Entry {
    Entry {
        log_id: log_id(1, index),
        payload: EntryPayload::Normal(RaftRequest { key: key.to_string(), value: value.to_string() }),
    }
}

#[test]
fn vote_is_read_back() {
    let mut s = MemStoreInner::new();
    assert_eq!(s.read_vote(), None);
    let v = Vote { leader_id: LeaderId { term: 3, node_id: 1 }, committed: true };
    s.save_vote(&v);
    assert_eq!(s.read_vote(), Some(v));
}

#[test]
fn appended_entries_are_read_back_in_order() {
    let mut s = MemStoreInner::new();
    s.append_to_log(vec![write(3, "c", "3"), write(1, "a", "1"), write(2, "b", "2")]);
    let idx: Vec<u64> = s.log.entries().iter().map(|e| e.log_id.index).collect();
    assert_eq!(idx, vec![1, 2, 3]);
    let st = s.get_log_state();
    assert_eq!(st.last_log_id, Some(log_id(1, 3)));
    assert_eq!(st.last_purged_log_id, None);
}

#[test]
fn purging_keeps_later_entries_and_the_purge_point() {
    let mut s = MemStoreInner::new();
    s.append_to_log(vec![write(1, "a", "1"), write(2, "b", "2"), write(3, "c", "3")]);
    s.purge_logs_upto(log_id(1, 2));
    let idx: Vec<u64> = s.log.entries().iter().map(|e| e.log_id.index).collect();
    assert_eq!(idx, vec![3]);
    s.purge_logs_upto(log_id(1, 3));
    let st = s.get_log_state();
    assert_eq!(st.last_purged_log_id, Some(log_id(1, 3)));
    assert_eq!(st.last_log_id, Some(log_id(1, 3)));
}

#[test]
fn conflicting_entries_are_deleted() {
    let mut s = MemStoreInner::new();
    s.append_to_log(vec![write(1, "a", "1"), write(2, "b", "2"), write(3, "c", "3")]);
    s.delete_conflict_logs_since(log_id(2, 2));
    let idx: Vec<u64> = s.log.entries().iter().map(|e| e.log_id.index).collect();
    assert_eq!(idx, vec![1]);
}

#[test]
fn applied_writes_are_read_back() {
    let mut s = MemStoreInner::new();
    let blank = Entry { log_id: log_id(1, 1), payload: EntryPayload::Blank };
    let responses =
        s.apply_to_state_machine(&[blank, write(2, "k", "one"), write(3, "k", "two")]);
    assert_eq!(responses.len(), 3);
    assert!(!responses[0].success);
    assert!(responses[1].success && responses[1].value.is_none());
    assert!(responses[2].success);
    assert_eq!(responses[2].value.as_deref(), Some("one"));
    assert_eq!(s.get("k").as_deref(), Some("two"));
    assert_eq!(s.get("other"), None);
    assert_eq!(s.state_machine_data.last_applied_log, Some(log_id(1, 3)));
}

#[test]
fn snapshot_meta_is_named_after_the_last_applied_entry() {
    let mut s = MemStoreInner::new();
    let empty = s.build_snapshot_meta();
    assert_eq!(empty.last_log_id, None);
    assert_eq!(empty.snapshot_id, "None");
    s.apply_to_state_machine(&[write(5, "k", "v")]);
    let meta = s.build_snapshot_meta();
    assert_eq!(meta.last_log_id, Some(log_id(1, 5)));
    assert_eq!(
        meta.snapshot_id,
        "Some(LogId { leader_id: LeaderId { term: 1, node_id: 0 }, index: 5 })"
    );
}

#[test]
fn compaction_purges_what_was_applied() {
    let mut s = MemStoreInner::new();
    assert_eq!(perform_compaction(&mut s), None);
    s.append_to_log(vec![write(1, "a", "1"), write(2, "b", "2"), write(3, "c", "3")]);
    s.apply_to_state_machine(&[write(1, "a", "1"), write(2, "b", "2")]);
    assert_eq!(perform_compaction(&mut s), Some(log_id(1, 2)));
    let idx: Vec<u64> = s.log.entries().iter().map(|e| e.log_id.index).collect();
    assert_eq!(idx, vec![3]);
    assert_eq!(s.last_purged_log_id, Some(log_id(1, 2)));
    assert_eq!(s.get("b").as_deref(), Some("2"));
}

#[test]
fn compaction_is_due_on_entries_or_time() {
    let config = CompactionConfig::default();
    assert_eq!(config.log_entries_threshold, 1000);
    assert_eq!(config.time_threshold, Duration::from_secs(3600));
    assert_eq!(config.check_interval, Duration::from_secs(60));
    assert!(!should_compact(Some(10), Some(5), Duration::from_secs(1), &config));
    assert!(should_compact(Some(1500), Some(400), Duration::from_secs(1), &config));
    assert!(should_compact(Some(1000), None, Duration::from_secs(0), &config));
    assert!(!should_compact(Some(3), Some(9), Duration::from_secs(0), &config));
    assert!(should_compact(None, None, Duration::from_secs(3600), &config));
    let quick = CompactionConfig::default().log_entries_threshold(2).time_threshold(Duration::from_millis(5));
    assert!(should_compact(Some(3), Some(1), Duration::from_millis(0), &quick));
    assert!(should_compact(None, None, Duration::from_millis(5), &quick));
}

#[test]
fn state_machine_restores_its_snapshot() {
    let mut m = KeyValueStateMachine::new();
    let r = m.apply(&RaftRequest { key: "x".to_string(), value: "1".to_string() });
    assert!(r.success && r.value.is_none());
    let snap = m.snapshot();
    m.apply(&RaftRequest { key: "x".to_string(), value: "2".to_string() });
    assert_eq!(m.data.get("x").map(|s| s.as_str()), Some("2"));
    m.restore(snap);
    assert_eq!(m.data.get("x").map(|s| s.as_str()), Some("1"));
}

#[test]
fn snapshot_built_on_one_store_installs_on_another() {
    let mut source = MemStoreInner::new();
    source.apply_to_state_machine(&[write(1, "a", "1"), write(2, "b", "2"), write(3, "a", "3")]);
    let meta = source.build_snapshot_meta();
    let data = source.snapshot_source().clone();
    let bytes = vec![1u8, 2, 3];
    let mut target = MemStoreInner::new();
    let v = Vote { leader_id: LeaderId { term: 7, node_id: 2 }, committed: false };
    target.save_vote(&v);
    target.install_snapshot(meta.clone(), data, bytes.clone());
    assert_eq!(target.last_applied_state().0, Some(log_id(1, 3)));
    assert_eq!(target.get("a"), Some("3".to_string()));
    assert_eq!(target.get("b"), Some("2".to_string()));
    assert_eq!(target.data().entries(), source.snapshot_data().entries());
    assert_eq!(target.snapshot_data().entries(), source.snapshot_data().entries());
    let (m, b) = target.get_current_snapshot().as_ref().unwrap();
    assert_eq!(m.last_log_id, meta.last_log_id);
    assert_eq!(m.snapshot_id, meta.snapshot_id);
    assert_eq!(b, &bytes);
    assert_eq!(target.read_vote(), Some(v));
}
