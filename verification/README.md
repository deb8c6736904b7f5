# k8s_operator

A Kubernetes operator framework with Raft-based leader election, whose
logic is written in Verus and proved against its contracts.

## Layout

- `src/` — the verified library.
  - `types/` — typed builders for Deployments, StatefulSets, DaemonSets,
    Jobs, CronJobs, Pods, ConfigMaps, Secrets, Services, Ingresses,
    NetworkPolicies, PersistentVolumeClaims, Volumes and RBAC objects, and
    their rendering into Kubernetes objects (`api/`).
  - `context.rs`, `operator.rs`, `controller.rs`, `operator_core.rs` — what
    a reconcile handler knows of its resource, the decision the controller
    loop takes for each resource (leadership, deletion, finalizers), status
    conditions and events.
  - `raft/` — the state-machine interface a user implements (with the
    key-value state machine as the provided one), the ordered log and the
    in-memory store over any such state machine, the wire form of Raft messages, node identity,
    cluster membership tracking, compaction, health answers and
    certificate reload decisions.
  - `raft_support.rs` — Raft configuration builders and peer discovery.
  - `kvmap.rs`, `text.rs`, `time.rs` — string-keyed maps, text rendering
    and parsing, durations and the clock.
- `tests/` — tests of the library on concrete values.
- `app/` — the runtime around the library: the Kubernetes client, the
  controller loop, the Raft node with its storage adapter, health service
  and background tasks.

## Properties proved

Among others: a node that does not lead never runs a handler; a live
resource always reaches its reconcile handler, getting the managed
finalizer first when it lacks it; log entries, votes and memberships read
back from the wire are what was sent (up to what the wire does not carry);
applied writes are read back from the store; a snapshot built on one
store and installed on another carries its state machine over; appended entries are read
back from the log; purging keeps exactly the later entries; membership
changes computed at each poll turn the known nodes into the discovered
ones; setting a status condition twice is the same as setting it once.
