use k8s_operator::raft::log::{Entry, EntryPayload, LeaderId, LogId, Membership, Vote};
use k8s_operator::raft::proto::{
    append_response_from_proto, append_response_to_proto, entry_from_proto, entry_to_proto,
    log_id_from_proto, log_id_to_proto, vote_from_proto, vote_or_default, vote_to_proto,
    AppendEntriesResponse, AppendOutcome, Payload,
};
use k8s_operator::raft::proto;
use k8s_operator::raft::types::{RaftNode, RaftRequest};

fn log_id(term: u64, node_id: u64, index: u64) -> LogId {
    LogId { leader_id: LeaderId { term, node_id }, index }
}

fn node(addr: &str) -> RaftNode {
    RaftNode { addr: addr.to_string() }
}

#[test]
fn vote_survives_the_wire() {
    let v = Vote { leader_id: LeaderId { term: 7, node_id: 3 }, committed: true };
    let p = vote_to_proto(&v);
    assert_eq!(p, proto::Vote { leader_id: 3, term: 7, committed: true });
    assert_eq!(vote_from_proto(p), v);
    let u = Vote { leader_id: LeaderId { term: 2, node_id: 9 }, committed: false };
    assert_eq!(vote_from_proto(vote_to_proto(&u)), u);
}

#[test]
fn log_id_loses_its_leader_node_on_the_wire() {
    let l = log_id(4, 2, 17);
    let p = log_id_to_proto(&l);
    assert_eq!(p, proto::LogId { term: 4, index: 17 });
    assert_eq!(log_id_from_proto(p), log_id(4, 0, 17));
    assert_eq!(log_id_from_proto(log_id_to_proto(&log_id(1, 0, 5))), log_id(1, 0, 5));
}

#[test]
fn missing_vote_reads_as_default() {
    let v = vote_or_default(None);
    assert_eq!(v, Vote { leader_id: LeaderId { term: 0, node_id: 0 }, committed: false });
    let w = vote_or_default(Some(proto::Vote { leader_id: 5, term: 6, committed: true }));
    assert_eq!(w, Vote { leader_id: LeaderId { term: 6, node_id: 5 }, committed: true });
}

#[test]
fn blank_and_normal_entries_survive_the_wire() {
    let blank = Entry { log_id: log_id(1, 0, 1), payload: EntryPayload::Blank };
    let p = entry_to_proto(&blank);
    assert!(matches!(p.payload.as_ref().unwrap().payload, Some(Payload::Blank(_))));
    let back = entry_from_proto(p);
    assert_eq!(back.log_id, log_id(1, 0, 1));
    assert!(matches!(back.payload, EntryPayload::Blank));

    let write = Entry {
        log_id: log_id(3, 1, 9),
        payload: EntryPayload::Normal(RaftRequest { key: "k".to_string(), value: "v".to_string() }),
    };
    let back = entry_from_proto(entry_to_proto(&write));
    assert_eq!(back.log_id, log_id(3, 0, 9));
    match back.payload {
        EntryPayload::Normal(r) => {
            assert_eq!(r.key, "k");
            assert_eq!(r.value, "v");
        }
        _ => panic!("expected a write"),
    }
}

#[test]
fn membership_is_sent_per_configuration() {
    let m = Membership {
        configs: vec![vec![1, 2], vec![2, 3]],
        nodes: vec![(1, node("a:1")), (2, node("b:2")), (4, node("learner:4"))],
    };
    let e = Entry { log_id: log_id(2, 1, 4), payload: EntryPayload::Membership(m) };
    let p = entry_to_proto(&e);
    let mp = match p.payload.as_ref().unwrap().payload.as_ref().unwrap() {
        Payload::Membership(mp) => mp.clone(),
        _ => panic!("expected a membership"),
    };
    assert_eq!(mp.configs.len(), 2);
    let first: Vec<(u64, String)> =
        mp.configs[0].nodes.iter().map(|(id, n)| (*id, n.addr.clone())).collect();
    assert_eq!(first, vec![(1, "a:1".to_string()), (2, "b:2".to_string())]);
    let second: Vec<(u64, String)> =
        mp.configs[1].nodes.iter().map(|(id, n)| (*id, n.addr.clone())).collect();
    // Node 3 is a voter without an address: it travels with the empty one.
    assert_eq!(second, vec![(2, "b:2".to_string()), (3, String::new())]);

    let back = entry_from_proto(p);
    match back.payload {
        EntryPayload::Membership(m) => {
            assert_eq!(m.configs, vec![vec![1, 2], vec![2, 3]]);
            let mut nodes: Vec<(u64, String)> =
                m.nodes.iter().map(|(id, n)| (*id, n.addr.clone())).collect();
            nodes.sort();
            nodes.dedup();
            assert_eq!(
                nodes,
                vec![(1, "a:1".to_string()), (2, "b:2".to_string()), (3, String::new())]
            );
        }
        _ => panic!("expected a membership"),
    }
}

#[test]
fn empty_membership_reads_as_one_empty_configuration() {
    let p = proto::Entry {
        log_id: None,
        payload: Some(proto::EntryPayload {
            payload: Some(Payload::Membership(proto::MembershipPayload { configs: vec![] })),
        }),
    };
    let e = entry_from_proto(p);
    assert_eq!(e.log_id, log_id(0, 0, 0));
    match e.payload {
        EntryPayload::Membership(m) => {
            assert_eq!(m.configs, vec![Vec::<u64>::new()]);
            assert!(m.nodes.is_empty());
        }
        _ => panic!("expected a membership"),
    }
}

#[test]
fn entry_without_payload_reads_as_blank() {
    let p = proto::Entry { log_id: Some(proto::LogId { term: 5, index: 6 }), payload: None };
    let e = entry_from_proto(p);
    assert_eq!(e.log_id, log_id(5, 0, 6));
    assert!(matches!(e.payload, EntryPayload::Blank));
}

#[test]
fn append_answers_survive_the_wire() {
    let v = Vote { leader_id: LeaderId { term: 9, node_id: 1 }, committed: false };
    for (sent, read) in [
        (AppendOutcome::Success, AppendOutcome::Success),
        (AppendOutcome::PartialSuccess(Some(log_id(1, 0, 3))), AppendOutcome::Success),
        (AppendOutcome::Conflict, AppendOutcome::Conflict),
        (AppendOutcome::HigherVote(v), AppendOutcome::HigherVote(v)),
    ] {
        assert_eq!(append_response_from_proto(&append_response_to_proto(&sent)), read);
    }
    let partial = append_response_to_proto(&AppendOutcome::PartialSuccess(Some(log_id(1, 2, 3))));
    assert_eq!(
        partial,
        AppendEntriesResponse {
            vote: None,
            success: true,
            conflict: Some(proto::LogId { term: 1, index: 3 }),
        }
    );
    let odd = AppendEntriesResponse { vote: None, success: false, conflict: None };
    assert_eq!(append_response_from_proto(&odd), AppendOutcome::Conflict);
}
