//! Helpers for controllers: status conditions, leadership checks and
//! finalizers.
use crate::api::meta::ObjectMeta;
use crate::operator::{finalizer_list, holds_finalizer, is_deleted, texts_of, texts_without, without_finalizer};
use crate::operator_core::{NodeRole, OperatorError, ReconcileError};
use crate::text::{same_text, text};
use crate::time::utc_now_rfc3339;
use crate::types::render::has_text;
use vstd::prelude::*;

verus! {

/// Whether a condition holds.
#[derive(Clone, Copy, Debug, PartialEq, Eq, Structural)]
pub enum ConditionStatus {
    True,
    False,
    Unknown,
}

/// A condition of a resource's status: its type and status, an optional
/// reason and message, when it last changed (RFC 3339 text), and the
/// generation it was observed at.
#[derive(Clone, Debug)]
pub struct StatusCondition {
    pub type_: String,
    pub status: ConditionStatus,
    pub reason: Option<String>,
    pub message: Option<String>,
    pub last_transition_time: String,
    pub observed_generation: Option<i64>,
}

/// A condition of the given type and status with nothing else set.
pub open spec fn plain_condition(c: StatusCondition, type_: Seq<char>, status: ConditionStatus) -> bool {
    &&& c.type_@ == type_
    &&& c.status == status
    &&& c.reason is None
    &&& c.message is None
    &&& c.observed_generation is None
}

/// `True` when `b`, else `False`.
pub open spec fn status_of(b: bool) -> ConditionStatus {
    if b {
        ConditionStatus::True
    } else {
        ConditionStatus::False
    }
}

impl StatusCondition {
    /// A condition of type `type_` with status `status`, changed now.
    pub fn new(type_: &str, status: ConditionStatus) -> (c: Self)
        ensures
            plain_condition(c, type_@, status),
    {
        StatusCondition::new_at(type_, status, utc_now_rfc3339())
    }

    /// A condition of type `type_` with status `status`, changed at `time`.
    pub fn new_at(type_: &str, status: ConditionStatus, time: String) -> (c: Self)
        ensures
            plain_condition(c, type_@, status),
            c.last_transition_time == time,
    {
        StatusCondition {
            type_: text(type_),
            status,
            reason: None,
            message: None,
            last_transition_time: time,
            observed_generation: None,
        }
    }

    /// Sets the reason.
    pub fn with_reason(self, reason: &str) -> (c: Self)
        ensures
            c.reason matches Some(r) && r@ == reason@,
            c.type_ == self.type_,
            c.status == self.status,
            c.message == self.message,
            c.last_transition_time == self.last_transition_time,
            c.observed_generation == self.observed_generation,
    {
        StatusCondition { reason: Some(text(reason)), ..self }
    }

    /// Sets the message.
    pub fn with_message(self, message: &str) -> (c: Self)
        ensures
            c.message matches Some(m) && m@ == message@,
            c.type_ == self.type_,
            c.status == self.status,
            c.reason == self.reason,
            c.last_transition_time == self.last_transition_time,
            c.observed_generation == self.observed_generation,
    {
        StatusCondition { message: Some(text(message)), ..self }
    }

    /// Sets the generation the condition was observed at.
    pub fn with_generation(self, generation: i64) -> (c: Self)
        ensures
            c.observed_generation == Some(generation),
            c.type_ == self.type_,
            c.status == self.status,
            c.reason == self.reason,
            c.message == self.message,
            c.last_transition_time == self.last_transition_time,
    {
        StatusCondition { observed_generation: Some(generation), ..self }
    }

    /// `Ready`, holding when `ready`.
    pub fn ready(ready: bool) -> (c: Self)
        ensures
            plain_condition(c, "Ready"@, status_of(ready)),
    {
        StatusCondition::new(
            "Ready",
            if ready {
                ConditionStatus::True
            } else {
                ConditionStatus::False
            },
        )
    }

    /// `Available`, holding when `available`.
    pub fn available(available: bool) -> (c: Self)
        ensures
            plain_condition(c, "Available"@, status_of(available)),
    {
        StatusCondition::new(
            "Available",
            if available {
                ConditionStatus::True
            } else {
                ConditionStatus::False
            },
        )
    }
}

/// The position of the first condition of type `t`, if any.
pub open spec fn first_of_type(cs: Seq<StatusCondition>, t: Seq<char>) -> Option<int>
    decreases cs.len(),
{
    if cs.len() == 0 {
        None
    } else {
        match first_of_type(cs.drop_last(), t) {
            Some(i) => Some(i),
            None => if cs.last().type_@ == t {
                Some(cs.len() - 1)
            } else {
                None
            },
        }
    }
}

/// The list with condition `c` set: it replaces the first condition of
/// its type, or is added at the end when there is none.
pub open spec fn upserted(cs: Seq<StatusCondition>, c: StatusCondition) -> Seq<StatusCondition> {
    match first_of_type(cs, c.type_@) {
        Some(i) => cs.update(i, c),
        None => cs.push(c),
    }
}

/// Sets condition `c` in a list: it replaces the first condition of its
/// type, or is added at the end when there is none.
pub fn upsert_condition(conditions: &mut Vec<StatusCondition>, c: StatusCondition)
    ensures
        final(conditions)@ == upserted(old(conditions)@, c),
{
    let ghost cs = conditions@;
    let mut i: usize = 0;
    while i < conditions.len()
        invariant
            0 <= i <= conditions@.len(),
            conditions@ == cs,
            cs == old(conditions)@,
            forall|j: int| 0 <= j < i ==> cs[j].type_@ != c.type_@,
        decreases conditions@.len() - i,
    {
        if same_text(conditions[i].type_.as_str(), c.type_.as_str()) {
            proof {
                lemma_first_of_type(cs, c.type_@, i as int);
            }
            conditions.set(i, c);
            return;
        }
        i = i + 1;
    }
    proof {
        lemma_no_type(cs, c.type_@);
    }
    conditions.push(c);
}

/// Whether a node in `role` leads.
pub fn is_leader_role(role: NodeRole) -> (r: bool)
    ensures
        r == (role == NodeRole::Leader),
{
    matches!(role, NodeRole::Leader)
}

/// Lets work proceed only on the leader: refused with `NotLeader` on every
/// other node.
pub fn check_leadership(role: NodeRole) -> (r: Result<(), ReconcileError>)
    ensures
        role == NodeRole::Leader ==> r is Ok,
        role != NodeRole::Leader ==> r matches Err(ReconcileError::NotLeader),
{
    if is_leader_role(role) {
        Ok(())
    } else {
        Err(ReconcileError::NotLeader)
    }
}

/// The finalizer a guard manages when none is named.
pub const DEFAULT_FINALIZER: &'static str = "k8s-operator.io/finalizer";

/// Whether the resource holds the finalizer `finalizer`.
pub fn has_finalizer(meta: &ObjectMeta, finalizer: &str) -> (r: bool)
    ensures
        r == has_text(finalizer_list(*meta), finalizer@),
{
    holds_finalizer(meta, finalizer)
}

/// Whether the resource is being deleted.
pub fn is_being_deleted(meta: &ObjectMeta) -> (r: bool)
    ensures
        r == is_deleted(*meta),
{
    meta.deletion_timestamp.is_some()
}

/// The finalizer list that adding a finalizer writes: that finalizer
/// alone.
pub fn finalizers_after_add(finalizer: &str) -> (r: Vec<String>)
    ensures
        r@.len() == 1,
        r@[0]@ == finalizer@,
{
    let mut r: Vec<String> = Vec::new();
    r.push(text(finalizer));
    r
}

/// The finalizer list that removing `finalizer` writes: the resource's
/// other finalizers, in order.
pub fn finalizers_after_remove(meta: &ObjectMeta, finalizer: &str) -> (r: Vec<String>)
    ensures
        texts_of(r@) == texts_without(finalizer_list(*meta), finalizer@),
{
    without_finalizer(meta, finalizer)
}

/// The error for a resource that has no name, which no patch can reach.
pub open spec fn is_nameless_error(e: OperatorError) -> bool {
    e matches OperatorError::Internal(m) && m@ == "Resource has no name"@
}

/// The patch that adding `finalizer` makes: the name of the resource to
/// patch and the finalizer list written, that finalizer alone. A resource
/// with no name is refused and nothing is patched.
pub fn finalizer_addition(meta: &ObjectMeta, finalizer: &str) -> (r: Result<(String, Vec<String>), OperatorError>)
    ensures
        match meta.name {
            None => r matches Err(e) && is_nameless_error(e),
            Some(n) => r matches Ok(p) && p.0@ == n@ && p.1@.len() == 1 && p.1@[0]@ == finalizer@,
        },
{
    match &meta.name {
        None => Err(OperatorError::Internal(text("Resource has no name"))),
        Some(n) => Ok((n.clone(), finalizers_after_add(finalizer))),
    }
}

/// The patch that removing `finalizer` makes: the name of the resource to
/// patch and the finalizer list written, the resource's finalizers (none
/// when it has no list) without every entry equal to `finalizer`, the
/// others in order. A resource with no name is refused and nothing is
/// patched.
pub fn finalizer_removal(meta: &ObjectMeta, finalizer: &str) -> (r: Result<(String, Vec<String>), OperatorError>)
    ensures
        match meta.name {
            None => r matches Err(e) && is_nameless_error(e),
            Some(n) => r matches Ok(p) && p.0@ == n@ && texts_of(p.1@) == texts_without(
                finalizer_list(*meta),
                finalizer@,
            ),
        },
{
    match &meta.name {
        None => Err(OperatorError::Internal(text("Resource has no name"))),
        Some(n) => Ok((n.clone(), finalizers_after_remove(meta, finalizer))),
    }
}

/// The finalizer a controller keeps on a resource while it has cleanup to
/// do.
#[derive(Clone, Debug)]
pub struct FinalizerGuard {
    finalizer: String,
}

impl View for FinalizerGuard {
    type V = Seq<char>;

    closed spec fn view(&self) -> Seq<char> {
        self.finalizer@
    }
}

impl FinalizerGuard {
    /// A guard for the default finalizer.
    pub fn new() -> (g: Self)
        ensures
            g@ == DEFAULT_FINALIZER@,
    {
        FinalizerGuard { finalizer: text(DEFAULT_FINALIZER) }
    }

    /// A guard for the finalizer `finalizer`.
    pub fn with_finalizer(self, finalizer: &str) -> (g: Self)
        ensures
            g@ == finalizer@,
    {
        FinalizerGuard { finalizer: text(finalizer) }
    }

    /// The finalizer guarded.
    pub fn finalizer(&self) -> (r: &str)
        ensures
            r@ == self@,
    {
        self.finalizer.as_str()
    }

    /// Whether the resource holds the finalizer.
    pub fn has_finalizer(&self, meta: &ObjectMeta) -> (r: bool)
        ensures
            r == has_text(finalizer_list(*meta), self@),
    {
        holds_finalizer(meta, self.finalizer.as_str())
    }

    /// Whether the resource is being deleted.
    pub fn is_being_deleted(&self, meta: &ObjectMeta) -> (r: bool)
        ensures
            r == is_deleted(*meta),
    {
        is_being_deleted(meta)
    }

    /// Whether making sure of the finalizer must add it: when the resource
    /// does not hold it.
    pub fn ensure_needs_add(&self, meta: &ObjectMeta) -> (r: bool)
        ensures
            r == !has_text(finalizer_list(*meta), self@),
    {
        !self.has_finalizer(meta)
    }

    /// Whether completing the cleanup must remove the finalizer: when the
    /// resource holds it.
    pub fn cleanup_needs_remove(&self, meta: &ObjectMeta) -> (r: bool)
        ensures
            r == has_text(finalizer_list(*meta), self@),
    {
        self.has_finalizer(meta)
    }
}

/// The first condition of type `t` is at `i` when `i` holds that type and
/// no earlier one does.
proof fn lemma_first_of_type(cs: Seq<StatusCondition>, t: Seq<char>, i: int)
    requires
        0 <= i < cs.len(),
        cs[i].type_@ == t,
        forall|j: int| 0 <= j < i ==> cs[j].type_@ != t,
    ensures
        first_of_type(cs, t) == Some(i),
    decreases cs.len(),
{
    let d = cs.drop_last();
    if i == cs.len() - 1 {
        assert forall|j: int| 0 <= j < d.len() implies d[j].type_@ != t by {
            assert(d[j] == cs[j]);
        }
        lemma_no_type(d, t);
    } else {
        assert(d[i] == cs[i]);
        assert forall|j: int| 0 <= j < i implies d[j].type_@ != t by {
            assert(d[j] == cs[j]);
        }
        lemma_first_of_type(d, t, i);
    }
}

/// No condition has type `t`: there is no first one.
proof fn lemma_no_type(cs: Seq<StatusCondition>, t: Seq<char>)
    requires
        forall|j: int| 0 <= j < cs.len() ==> cs[j].type_@ != t,
    ensures
        first_of_type(cs, t) is None,
    decreases cs.len(),
{
    if cs.len() > 0 {
        let d = cs.drop_last();
        assert forall|j: int| 0 <= j < d.len() implies d[j].type_@ != t by {
            assert(d[j] == cs[j]);
        }
        lemma_no_type(d, t);
        assert(cs.last() == cs[cs.len() - 1]);
    }
}

/// What the first position of a type is: a condition of that type with no
/// earlier one, or none when no condition has it.
proof fn lemma_first_props(cs: Seq<StatusCondition>, t: Seq<char>)
    ensures
        match first_of_type(cs, t) {
            Some(i) => 0 <= i < cs.len() && cs[i].type_@ == t && forall|j: int|
                0 <= j < i ==> cs[j].type_@ != t,
            None => forall|j: int| 0 <= j < cs.len() ==> cs[j].type_@ != t,
        },
    decreases cs.len(),
{
    if cs.len() > 0 {
        let d = cs.drop_last();
        lemma_first_props(d, t);
        assert forall|j: int| 0 <= j < d.len() implies d[j] == cs[j] by {}
    }
}

/// Setting a condition holds it in the list, once for its type before any
/// other of that type; the other conditions stay; setting it again
/// changes nothing.
pub proof fn law_upsert_condition(cs: Seq<StatusCondition>, c: StatusCondition)
    ensures
        first_of_type(upserted(cs, c), c.type_@) matches Some(i) && upserted(cs, c)[i] == c,
        upserted(cs, c).len() <= cs.len() + 1,
        forall|j: int|
            0 <= j < cs.len() && cs[j].type_@ != c.type_@ ==> #[trigger] upserted(cs, c)[j] == cs[j],
        upserted(upserted(cs, c), c) == upserted(cs, c),
{
    let t = c.type_@;
    let u = upserted(cs, c);
    lemma_first_props(cs, t);
    match first_of_type(cs, t) {
        Some(i) => {
            assert forall|j: int| 0 <= j < i implies u[j].type_@ != t by {
                assert(u[j] == cs[j]);
            }
            lemma_first_of_type(u, t, i);
            assert(u.update(i, c) =~= u);
        },
        None => {
            let n = cs.len() as int;
            assert forall|j: int| 0 <= j < n implies u[j].type_@ != t by {
                assert(u[j] == cs[j]);
            }
            lemma_first_of_type(u, t, n);
            assert(u.update(n, c) =~= u);
        },
    }
}

} // verus!
