use k8s_operator::api::meta::ObjectMeta;
use k8s_operator::context::{Condition, Context};
use k8s_operator::controller::{
    check_leadership, finalizer_addition, finalizer_removal, finalizers_after_add, finalizers_after_remove, has_finalizer,
    is_being_deleted, is_leader_role, upsert_condition, ConditionStatus, FinalizerGuard,
    StatusCondition, DEFAULT_FINALIZER,
};
use k8s_operator::kvmap::StringMap;
use k8s_operator::operator::{finalizer_of_lowercase_kind, step_action, ControllerAction, OperatorSettings, ReconcileStep};
use k8s_operator::operator_core::{NodeRole, OperatorError, ReconcileError};
use std::time::Duration;

fn meta(name: &str, finalizers: &[&str], deleted: bool) -> ObjectMeta {
    ObjectMeta {
        name: Some(name.to_string()),
        generate_name: None,
        namespace: Some("apps".to_string()),
        uid: Some("uid-1".to_string()),
        labels: Some(StringMap::new().insert("app".to_string(), "web".to_string())),
        annotations: None,
        owner_references: None,
        finalizers: if finalizers.is_empty() {
            None
        } else {
            Some(finalizers.iter().map(|s| s.to_string()).collect())
        },
        deletion_timestamp: if deleted { Some("2024-01-01T00:00:00Z".to_string()) } else { None },
    }
}

#[test]
fn followers_requeue_after_five_seconds() {
    let s = OperatorSettings::new();
    let step = s.plan(Some(false), &meta("a", &[], false), true);
    assert_eq!(step, ReconcileStep::NotLeader);
    let a = step_action(step).unwrap();
    assert_eq!(a.requeue_after, Some(Duration::from_secs(5)));
}

#[test]
fn without_finalizer_live_resources_reconcile_and_deleted_ones_delete() {
    let s = OperatorSettings::new();
    assert_eq!(s.plan(None, &meta("a", &[], false), true), ReconcileStep::Reconcile { add_finalizer: false });
    assert_eq!(s.plan(Some(true), &meta("a", &[], true), true), ReconcileStep::Delete);
    assert_eq!(s.plan(None, &meta("a", &[], true), false), ReconcileStep::AwaitChange);
    assert!(step_action(ReconcileStep::Delete).is_none());
    assert!(step_action(ReconcileStep::AwaitChange).unwrap().requeue_after.is_none());
}

#[test]
fn managed_finalizer_is_added_then_finalized() {
    let s = OperatorSettings::new().with_custom_finalizer("example.com/cleanup");
    assert_eq!(s.finalizer.as_deref(), Some("example.com/cleanup"));
    assert_eq!(s.plan(None, &meta("a", &[], false), true), ReconcileStep::Reconcile { add_finalizer: true });
    assert_eq!(
        s.plan(None, &meta("a", &["example.com/cleanup"], false), true),
        ReconcileStep::Reconcile { add_finalizer: false }
    );
    assert_eq!(
        s.plan(None, &meta("a", &["other", "example.com/cleanup"], true), true),
        ReconcileStep::Finalize { run_delete: true }
    );
    assert_eq!(
        s.plan(None, &meta("a", &["example.com/cleanup"], true), false),
        ReconcileStep::Finalize { run_delete: false }
    );
    assert_eq!(s.plan(None, &meta("a", &["other"], true), true), ReconcileStep::AwaitChange);
    assert!(step_action(ReconcileStep::Finalize { run_delete: true }).unwrap().requeue_after.is_none());
}

#[test]
fn finalizer_name_comes_from_kind_and_group() {
    let s = OperatorSettings::new().with_finalizer("WebApp", "example.com");
    assert_eq!(s.finalizer.as_deref(), Some("webapp.example.com/finalizer"));
}

#[test]
fn operator_settings_delays() {
    let s = OperatorSettings::new();
    assert_eq!(s.requeue_after, Duration::from_secs(300));
    assert_eq!(s.error_requeue, Duration::from_secs(60));
    let s = s.requeue_after(Duration::from_secs(10)).error_requeue(Duration::from_secs(3));
    assert_eq!(s.requeue_after, Duration::from_secs(10));
    assert_eq!(s.error_action().requeue_after, Some(Duration::from_secs(3)));
    assert_eq!(ControllerAction::requeue(Duration::from_secs(1)).requeue_after, Some(Duration::from_secs(1)));
    assert!(ControllerAction::await_change().requeue_after.is_none());
}

#[test]
fn finalizers_are_found_and_removed() {
    let m = meta("a", &["x", "y", "x"], false);
    assert!(has_finalizer(&m, "y"));
    assert!(!has_finalizer(&m, "z"));
    assert!(!has_finalizer(&meta("a", &[], false), "x"));
    assert_eq!(finalizers_after_remove(&m, "x"), vec!["y".to_string()]);
    assert_eq!(finalizers_after_remove(&m, "z"), vec!["x".to_string(), "y".to_string(), "x".to_string()]);
    assert_eq!(finalizers_after_add("k"), vec!["k".to_string()]);
    assert!(is_being_deleted(&meta("a", &[], true)));
    assert!(!is_being_deleted(&m));
}

#[test]
fn finalizer_guard_decides_what_to_patch() {
    let g = FinalizerGuard::new();
    assert_eq!(g.finalizer(), DEFAULT_FINALIZER);
    assert_eq!(DEFAULT_FINALIZER, "k8s-operator.io/finalizer");
    let live = meta("a", &[], false);
    assert!(g.ensure_needs_add(&live));
    assert!(!g.cleanup_needs_remove(&live));
    let held = meta("a", &["k8s-operator.io/finalizer"], true);
    assert!(g.has_finalizer(&held));
    assert!(g.is_being_deleted(&held));
    assert!(!g.ensure_needs_add(&held));
    assert!(g.cleanup_needs_remove(&held));
    let custom = FinalizerGuard::new().with_finalizer("mine");
    assert_eq!(custom.finalizer(), "mine");
}

#[test]
fn leadership_checks() {
    assert!(is_leader_role(NodeRole::Leader));
    assert!(!is_leader_role(NodeRole::Candidate));
    assert!(check_leadership(NodeRole::Leader).is_ok());
    assert!(matches!(check_leadership(NodeRole::Follower), Err(ReconcileError::NotLeader)));
    assert!(matches!(check_leadership(NodeRole::Learner), Err(ReconcileError::NotLeader)));
    assert_eq!(NodeRole::default(), NodeRole::Follower);
}

#[test]
fn status_conditions_build_and_upsert() {
    let c = StatusCondition::ready(true).with_reason("Up").with_message("all good").with_generation(4);
    assert_eq!(c.type_, "Ready");
    assert_eq!(c.status, ConditionStatus::True);
    assert_eq!(c.reason.as_deref(), Some("Up"));
    assert_eq!(c.message.as_deref(), Some("all good"));
    assert_eq!(c.observed_generation, Some(4));
    assert!(!c.last_transition_time.is_empty());
    let a = StatusCondition::available(false);
    assert_eq!((a.type_.as_str(), a.status), ("Available", ConditionStatus::False));
    assert!(a.reason.is_none());

    let mut list = vec![StatusCondition::new("Ready", ConditionStatus::Unknown), a.clone()];
    upsert_condition(&mut list, c.clone());
    assert_eq!(list.len(), 2);
    assert_eq!(list[0].status, ConditionStatus::True);
    upsert_condition(&mut list, StatusCondition::new("Progressing", ConditionStatus::True));
    assert_eq!(list.len(), 3);
    assert_eq!(list[2].type_, "Progressing");
    upsert_condition(&mut list, c);
    assert_eq!(list.len(), 3);
}

#[test]
fn context_describes_the_resource() {
    let m = meta("web", &[], false);
    let ctx = Context::new(&m, "example.com/v1", "WebApp");
    assert_eq!(ctx.name(), "web");
    assert_eq!(ctx.namespace(), "apps");
    assert_eq!(ctx.labels().0.get("app").map(|s| s.as_str()), Some("web"));
    assert!(ctx.annotations().0.is_empty());
    let o = ctx.owner_reference();
    assert_eq!(o.api_version, "example.com/v1");
    assert_eq!(o.kind, "WebApp");
    assert_eq!(o.name, "web");
    assert_eq!(o.uid, "uid-1");
    assert_eq!(o.controller, Some(true));
    assert_eq!(o.block_owner_deletion, Some(true));
    assert_eq!(ctx.requeue_after(Duration::from_secs(7)).requeue_after, Some(Duration::from_secs(7)));
    assert!(ctx.done().requeue_after.is_none());

    let mut unnamed = meta("x", &[], false);
    unnamed.name = None;
    unnamed.generate_name = Some("gen-".to_string());
    unnamed.namespace = None;
    let ctx2 = Context::new(&unnamed, "v1", "Pod");
    assert_eq!(ctx2.name(), "gen-");
    assert_eq!(ctx2.namespace(), "");
}

#[test]
fn events_are_named_by_hex_time() {
    let ctx = Context::new(&meta("web", &[], false), "example.com/v1", "WebApp");
    let e = ctx.event("Created", "made it", Some(255), None);
    assert_eq!(e.metadata.name.as_deref(), Some("web.ff"));
    assert_eq!(e.metadata.namespace.as_deref(), Some("apps"));
    assert_eq!(e.type_.as_deref(), Some("Normal"));
    assert_eq!(e.reason.as_deref(), Some("Created"));
    assert_eq!(e.message.as_deref(), Some("made it"));
    assert_eq!(e.count, Some(1));
    assert_eq!(e.reporting_component.as_deref(), Some("k8s-operator"));
    assert_eq!(e.reporting_instance.as_deref(), Some("operator"));
    assert_eq!(e.involved_object.kind.as_deref(), Some("WebApp"));
    assert_eq!(e.involved_object.uid.as_deref(), Some("uid-1"));
    let w = ctx.warning("Failed", "oops", None, Some("pod-1"));
    assert_eq!(w.metadata.name.as_deref(), Some("web.0"));
    assert_eq!(w.type_.as_deref(), Some("Warning"));
    assert_eq!(w.reporting_instance.as_deref(), Some("pod-1"));
    let n = ctx.event("R", "M", Some(-1), None);
    assert_eq!(n.metadata.name.as_deref(), Some("web.ffffffffffffffff"));
    let big = ctx.event("R", "M", Some(1_700_000_000_123_456_789), None);
    assert_eq!(big.metadata.name, Some(format!("web.{:x}", 1_700_000_000_123_456_789i64)));
}

#[test]
fn conditions_report_status_and_reason() {
    let r = Condition::ready(true);
    assert_eq!((r.type_.as_str(), r.status.as_str(), r.reason.as_str()), ("Ready", "True", "Ready"));
    assert_eq!(r.message, "");
    let r = Condition::ready(false);
    assert_eq!((r.status.as_str(), r.reason.as_str()), ("False", "NotReady"));
    let a = Condition::available(false);
    assert_eq!((a.type_.as_str(), a.reason.as_str()), ("Available", "Unavailable"));
    let p = Condition::progressing(false);
    assert_eq!((p.type_.as_str(), p.reason.as_str()), ("Progressing", "Complete"));
    let c = Condition::custom("Synced", true).reason("Done").message("ok");
    assert_eq!(
        (c.type_.as_str(), c.status.as_str(), c.reason.as_str(), c.message.as_str()),
        ("Synced", "True", "Done", "ok")
    );
    assert!(!c.last_transition_time.is_empty());
}

#[test]
fn conditions_carry_the_time_they_are_given() {
    let c = StatusCondition::new_at("Synced", ConditionStatus::Unknown, "2024-01-01T00:00:00+00:00".to_string());
    assert_eq!(c.type_, "Synced");
    assert_eq!(c.status, ConditionStatus::Unknown);
    assert_eq!(c.last_transition_time, "2024-01-01T00:00:00+00:00");
    assert!(c.reason.is_none() && c.message.is_none() && c.observed_generation.is_none());
    let d = Condition::made_at("Ready".to_string(), false, "NotReady".to_string(), "t0".to_string());
    assert_eq!(
        (d.type_.as_str(), d.status.as_str(), d.reason.as_str(), d.message.as_str(), d.last_transition_time.as_str()),
        ("Ready", "False", "NotReady", "", "t0")
    );
}

#[test]
fn finalizer_is_joined_from_the_lowercased_kind() {
    assert_eq!(finalizer_of_lowercase_kind("myapp", "example.com"), "myapp.example.com/finalizer");
    let s = OperatorSettings::new().with_finalizer("MyApp", "example.com");
    assert_eq!(s.finalizer.as_deref(), Some("myapp.example.com/finalizer"));
}

#[test]
fn finalizer_patches_need_a_named_resource() {
    let m = meta("web", &["a", "k8s-operator.io/finalizer", "b", "k8s-operator.io/finalizer"], false);
    let (name, list) = finalizer_removal(&m, "k8s-operator.io/finalizer").unwrap();
    assert_eq!(name, "web");
    assert_eq!(list, vec!["a".to_string(), "b".to_string()]);
    let (name, list) = finalizer_addition(&m, "x/y").unwrap();
    assert_eq!((name.as_str(), list), ("web", vec!["x/y".to_string()]));
    let mut nameless = meta("web", &["a"], false);
    nameless.name = None;
    match finalizer_removal(&nameless, "a") {
        Err(OperatorError::Internal(m)) => assert_eq!(m, "Resource has no name"),
        _ => panic!("a nameless resource must be refused"),
    }
    match finalizer_addition(&nameless, "a") {
        Err(OperatorError::Internal(m)) => assert_eq!(m, "Resource has no name"),
        _ => panic!("a nameless resource must be refused"),
    }
}
