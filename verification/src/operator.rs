//! The decisions of the controller loop: what to do for a resource given
//! leadership, whether it is being deleted and which finalizers it has;
//! and the settings an operator runs with.
use crate::api::meta::ObjectMeta;
use crate::text::text;
use crate::time::{duration_nanos, secs};
use crate::types::render::{contains_text, has_text};
use std::time::Duration;
use vstd::prelude::*;

verus! {

/// When the controller looks at a resource again: after a delay, or only
/// once the resource changes.
pub struct ControllerAction {
    pub requeue_after: Option<Duration>,
}

impl ControllerAction {
    /// Look at the resource again after `duration`.
    pub fn requeue(duration: Duration) -> (a: Self)
        ensures
            a.requeue_after == Some(duration),
    {
        ControllerAction { requeue_after: Some(duration) }
    }

    /// Look at the resource again only once it changes.
    pub fn await_change() -> (a: Self)
        ensures
            a.requeue_after is None,
    {
        ControllerAction { requeue_after: None }
    }
}

/// What the controller does for one resource.
#[derive(Clone, Copy, Debug, PartialEq, Eq, Structural)]
pub enum ReconcileStep {
    /// Another node leads: look again after five seconds.
    NotLeader,
    /// The resource is being deleted and still holds the finalizer: run
    /// the deletion handler if `run_delete`, remove the finalizer, then
    /// wait for a change.
    Finalize { run_delete: bool },
    /// The resource is being deleted and nothing is left to do: wait for
    /// a change.
    AwaitChange,
    /// The resource is being deleted and no finalizer is managed: the
    /// deletion handler's answer is the answer.
    Delete,
    /// Add the finalizer first if `add_finalizer`, then run the reconcile
    /// handler, whose answer is the answer.
    Reconcile { add_finalizer: bool },
}

/// The resource is being deleted.
pub open spec fn is_deleted(meta: ObjectMeta) -> bool {
    meta.deletion_timestamp is Some
}

/// The finalizers of a resource; none when the list is absent.
pub open spec fn finalizer_list(meta: ObjectMeta) -> Seq<String> {
    match meta.finalizers {
        Some(v) => v@,
        None => Seq::empty(),
    }
}

/// The step for a resource. `leader` is absent when no leader election
/// runs, `finalizer` when the operator manages none.
pub open spec fn reconcile_step(
    leader: Option<bool>,
    meta: ObjectMeta,
    finalizer: Option<Seq<char>>,
    has_delete_handler: bool,
) -> ReconcileStep {
    if leader == Some(false) {
        ReconcileStep::NotLeader
    } else {
        match finalizer {
            Some(f) => {
                let present = has_text(finalizer_list(meta), f);
                if is_deleted(meta) {
                    if present {
                        ReconcileStep::Finalize { run_delete: has_delete_handler }
                    } else {
                        ReconcileStep::AwaitChange
                    }
                } else {
                    ReconcileStep::Reconcile { add_finalizer: !present }
                }
            },
            None => {
                if is_deleted(meta) {
                    if has_delete_handler {
                        ReconcileStep::Delete
                    } else {
                        ReconcileStep::AwaitChange
                    }
                } else {
                    ReconcileStep::Reconcile { add_finalizer: false }
                }
            },
        }
    }
}

/// The text of an optional string.
pub open spec fn opt_text(o: Option<String>) -> Option<Seq<char>> {
    match o {
        Some(s) => Some(s@),
        None => None,
    }
}

/// Whether the resource holds the finalizer named `finalizer`.
pub fn holds_finalizer(meta: &ObjectMeta, finalizer: &str) -> (r: bool)
    ensures
        r == has_text(finalizer_list(*meta), finalizer@),
{
    match &meta.finalizers {
        Some(v) => contains_text(v, finalizer),
        None => false,
    }
}

/// The texts of `v` other than `f`, in order.
pub open spec fn texts_without(v: Seq<String>, f: Seq<char>) -> Seq<Seq<char>>
    decreases v.len(),
{
    if v.len() == 0 {
        Seq::empty()
    } else {
        let rest = texts_without(v.drop_last(), f);
        if v.last()@ == f {
            rest
        } else {
            rest.push(v.last()@)
        }
    }
}

/// The texts of a list of strings.
pub open spec fn texts_of(v: Seq<String>) -> Seq<Seq<char>> {
    v.map_values(|s: String| s@)
}

/// The finalizers of a resource once `finalizer` is removed, in order.
pub fn without_finalizer(meta: &ObjectMeta, finalizer: &str) -> (r: Vec<String>)
    ensures
        texts_of(r@) == texts_without(finalizer_list(*meta), finalizer@),
{
    let mut r: Vec<String> = Vec::new();
    match &meta.finalizers {
        Some(v) => {
            let mut i: usize = 0;
            while i < v.len()
                invariant
                    0 <= i <= v@.len(),
                    meta.finalizers == Some(*v),
                    texts_of(r@) == texts_without(v@.take(i as int), finalizer@),
                decreases v@.len() - i,
            {
                let ghost before = r@;
                proof {
                    assert(v@.take(i + 1).drop_last() =~= v@.take(i as int));
                    assert(v@.take(i + 1).last() == v@[i as int]);
                }
                let f = text(finalizer);
                if v[i] != f {
                    r.push(v[i].clone());
                    proof {
                        assert(texts_of(r@) =~= texts_of(before).push(v@[i as int]@));
                    }
                }
                i = i + 1;
            }
            proof {
                assert(v@.take(v@.len() as int) =~= v@);
            }
        },
        None => {
            proof {
                assert(texts_of(r@) =~= Seq::<Seq<char>>::empty());
            }
        },
    }
    r
}

/// Calls `str::to_lowercase`: the text with every letter in lower case.
pub uninterp spec fn lowercase(s: Seq<char>) -> Seq<char>;

/// Calls `str::to_lowercase`, which maps every character to its lower
/// case; the result is named by `lowercase`.
#[verifier::external_body]
fn to_lowercase(s: &str) -> (r: String)
    ensures
        r@ == lowercase(s@),
{
    s.to_lowercase()
}

/// The name of the finalizer an operator manages for a resource kind:
/// the kind in lower case, a dot, the API group and `/finalizer`.
pub open spec fn finalizer_name(kind: Seq<char>, group: Seq<char>) -> Seq<char> {
    lowercase(kind) + "."@ + group + "/finalizer"@
}

/// The finalizer name for a kind already in lower case: the kind, a dot,
/// the API group and `/finalizer`.
pub fn finalizer_of_lowercase_kind(lower_kind: &str, group: &str) -> (r: String)
    ensures
        r@ == lower_kind@ + "."@ + group@ + "/finalizer"@,
{
    text(lower_kind).concat(".").concat(group).concat("/finalizer")
}

/// The settings an operator runs with: the finalizer it manages, if any,
/// how long it waits before looking at a resource again, and how long
/// after an error.
pub struct OperatorSettings {
    pub finalizer: Option<String>,
    pub requeue_after: Duration,
    pub error_requeue: Duration,
}

impl OperatorSettings {
    /// No finalizer; look again after five minutes, and one minute after
    /// an error.
    pub fn new() -> (s: Self)
        ensures
            s.finalizer is None,
            duration_nanos(s.requeue_after) == 300_000_000_000,
            duration_nanos(s.error_requeue) == 60_000_000_000,
    {
        OperatorSettings { finalizer: None, requeue_after: secs(300), error_requeue: secs(60) }
    }

    /// Manages the finalizer named after the resource kind and group.
    pub fn with_finalizer(self, kind: &str, group: &str) -> (s: Self)
        ensures
            opt_text(s.finalizer) == Some(finalizer_name(kind@, group@)),
            s.requeue_after == self.requeue_after,
            s.error_requeue == self.error_requeue,
    {
        let lower = to_lowercase(kind);
        let name = finalizer_of_lowercase_kind(lower.as_str(), group);
        OperatorSettings { finalizer: Some(name), ..self }
    }

    /// Manages the finalizer named `name`.
    pub fn with_custom_finalizer(self, name: &str) -> (s: Self)
        ensures
            opt_text(s.finalizer) == Some(name@),
            s.requeue_after == self.requeue_after,
            s.error_requeue == self.error_requeue,
    {
        OperatorSettings { finalizer: Some(text(name)), ..self }
    }

    /// Sets the delay before a resource is looked at again.
    pub fn requeue_after(self, duration: Duration) -> (s: Self)
        ensures
            s.requeue_after == duration,
            s.finalizer == self.finalizer,
            s.error_requeue == self.error_requeue,
    {
        OperatorSettings { requeue_after: duration, ..self }
    }

    /// Sets the delay before a resource is looked at again after an
    /// error.
    pub fn error_requeue(self, duration: Duration) -> (s: Self)
        ensures
            s.error_requeue == duration,
            s.finalizer == self.finalizer,
            s.requeue_after == self.requeue_after,
    {
        OperatorSettings { error_requeue: duration, ..self }
    }

    /// The step for a resource whose metadata is `meta`. `leader` is
    /// absent when no leader election runs.
    pub fn plan(&self, leader: Option<bool>, meta: &ObjectMeta, has_delete_handler: bool) -> (s:
        ReconcileStep)
        ensures
            s == reconcile_step(leader, *meta, opt_text(self.finalizer), has_delete_handler),
    {
        if leader == Some(false) {
            return ReconcileStep::NotLeader;
        }
        let deleted = meta.deletion_timestamp.is_some();
        match &self.finalizer {
            Some(f) => {
                let present = holds_finalizer(meta, f.as_str());
                if deleted {
                    if present {
                        ReconcileStep::Finalize { run_delete: has_delete_handler }
                    } else {
                        ReconcileStep::AwaitChange
                    }
                } else {
                    ReconcileStep::Reconcile { add_finalizer: !present }
                }
            },
            None => {
                if deleted {
                    if has_delete_handler {
                        ReconcileStep::Delete
                    } else {
                        ReconcileStep::AwaitChange
                    }
                } else {
                    ReconcileStep::Reconcile { add_finalizer: false }
                }
            },
        }
    }

    /// What follows a failed reconciliation: look again after the error
    /// delay.
    pub fn error_action(&self) -> (a: ControllerAction)
        ensures
            a.requeue_after == Some(self.error_requeue),
    {
        ControllerAction::requeue(self.error_requeue)
    }
}

/// What follows a step that ends the reconciliation by itself: five
/// seconds for a node that does not lead, a wait for a change after
/// finalizing or when nothing is left to do. The other steps end with
/// the answer of a handler.
pub fn step_action(step: ReconcileStep) -> (a: Option<ControllerAction>)
    ensures
        match step {
            ReconcileStep::NotLeader => a matches Some(x) && x.requeue_after matches Some(d)
                && duration_nanos(d) == 5_000_000_000,
            ReconcileStep::Finalize { .. } | ReconcileStep::AwaitChange => a matches Some(x)
                && x.requeue_after is None,
            _ => a is None,
        },
{
    match step {
        ReconcileStep::NotLeader => Some(ControllerAction::requeue(secs(5))),
        ReconcileStep::Finalize { .. } => Some(ControllerAction::await_change()),
        ReconcileStep::AwaitChange => Some(ControllerAction::await_change()),
        _ => None,
    }
}

/// Only the leader works: on a node that does not lead, no handler runs
/// and no finalizer is touched, whatever the resource.
pub proof fn law_followers_do_no_work(
    meta: ObjectMeta,
    finalizer: Option<Seq<char>>,
    has_delete_handler: bool,
)
    ensures
        reconcile_step(Some(false), meta, finalizer, has_delete_handler) == ReconcileStep::NotLeader,
{
}

/// The managed finalizer must be added: one is managed and the resource
/// does not hold it.
pub open spec fn add_needed(meta: ObjectMeta, finalizer: Option<Seq<char>>) -> bool {
    match finalizer {
        Some(f) => !has_text(finalizer_list(meta), f),
        None => false,
    }
}

/// The step runs the reconcile handler.
pub open spec fn is_reconcile(s: ReconcileStep) -> bool {
    s is Reconcile
}

/// A live resource always reaches the reconcile handler on a node that
/// may work; it first gets the managed finalizer exactly when it does not
/// hold it yet. A resource being deleted never reaches the reconcile
/// handler.
pub proof fn law_live_resources_are_reconciled(
    leader: Option<bool>,
    meta: ObjectMeta,
    finalizer: Option<Seq<char>>,
    has_delete_handler: bool,
)
    requires
        leader != Some(false),
    ensures
        !is_deleted(meta) ==> reconcile_step(leader, meta, finalizer, has_delete_handler) == (
        ReconcileStep::Reconcile { add_finalizer: add_needed(meta, finalizer) }),
        is_deleted(meta) ==> !is_reconcile(reconcile_step(leader, meta, finalizer, has_delete_handler)),
{
}

/// A resource being deleted is finalized on a node that may work, with or
/// without leader election: when it holds the managed finalizer, the
/// delete handler (if there is one) runs and the finalizer is removed;
/// when it no longer holds it, nothing is left to do. With no managed
/// finalizer the delete handler, if there is one, answers; otherwise
/// nothing is left to do.
pub proof fn law_deleted_resources_are_finalized(
    leader: Option<bool>,
    meta: ObjectMeta,
    finalizer: Option<Seq<char>>,
    has_delete_handler: bool,
)
    requires
        leader != Some(false),
        meta.deletion_timestamp is Some,
    ensures
        finalizer matches Some(f) && meta.finalizers matches Some(v) && (exists|i: int|
            0 <= i < v@.len() && #[trigger] v@[i]@ == f) ==> reconcile_step(
            leader,
            meta,
            finalizer,
            has_delete_handler,
        ) == (ReconcileStep::Finalize { run_delete: has_delete_handler }),
        finalizer matches Some(f) && (meta.finalizers matches Some(v) ==> forall|i: int|
            0 <= i < v@.len() ==> #[trigger] v@[i]@ != f) ==> reconcile_step(
            leader,
            meta,
            finalizer,
            has_delete_handler,
        ) == ReconcileStep::AwaitChange,
        finalizer is None && has_delete_handler ==> reconcile_step(
            leader,
            meta,
            finalizer,
            has_delete_handler,
        ) == ReconcileStep::Delete,
        finalizer is None && !has_delete_handler ==> reconcile_step(
            leader,
            meta,
            finalizer,
            has_delete_handler,
        ) == ReconcileStep::AwaitChange,
{
}

/// Removing a finalizer leaves no copy of it, and keeps every other
/// finalizer, in order.
pub proof fn law_removed_finalizer_is_gone(v: Seq<String>, f: Seq<char>)
    ensures
        forall|i: int| 0 <= i < texts_without(v, f).len() ==> #[trigger] texts_without(v, f)[i] != f,
        forall|i: int|
            0 <= i < v.len() && v[i]@ != f ==> (#[trigger] texts_without(v, f).contains(v[i]@)),
        texts_without(v, f).len() <= v.len(),
    decreases v.len(),
{
    if v.len() > 0 {
        let t = v.drop_last();
        law_removed_finalizer_is_gone(t, f);
        let r = texts_without(t, f);
        assert forall|i: int| 0 <= i < v.len() && v[i]@ != f implies #[trigger] texts_without(
            v,
            f,
        ).contains(v[i]@) by {
            if i < v.len() - 1 {
                assert(t[i] == v[i]);
                assert(r.contains(t[i]@));
                let j = choose|j: int| 0 <= j < r.len() && r[j] == t[i]@;
                if v.last()@ != f {
                    assert(texts_without(v, f)[j] == v[i]@);
                }
            } else {
                assert(texts_without(v, f)[r.len() as int] == v[i]@);
            }
        }
    }
}

} // verus!
