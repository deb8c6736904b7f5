//! What a reconcile handler knows of the resource it works on, and the
//! status conditions it reports.
use crate::api::core_v1::{Event, ObjectReference};
use crate::api::meta::{ObjectMeta, OwnerReference};
use crate::kvmap::StringMap;
use crate::operator::ControllerAction;
use crate::text::{hex, hex_string, text};
use crate::time::utc_now_rfc3339;
use crate::types::metadata::{Annotations, Labels};
use std::time::Duration;
use vstd::prelude::*;

verus! {

/// The identity of a resource under reconciliation: its name, namespace
/// and uid, its API version and kind, its labels and annotations.
pub struct Context {
    name: String,
    namespace: String,
    uid: Option<String>,
    api_version: String,
    kind: String,
    labels: StringMap<String>,
    annotations: StringMap<String>,
}

/// What a context holds, as values.
pub struct ContextView {
    pub name: Seq<char>,
    pub namespace: Seq<char>,
    pub uid: Option<Seq<char>>,
    pub api_version: Seq<char>,
    pub kind: Seq<char>,
    pub labels: Map<Seq<char>, Seq<char>>,
    pub annotations: Map<Seq<char>, Seq<char>>,
}

impl View for Context {
    type V = ContextView;

    closed spec fn view(&self) -> ContextView {
        ContextView {
            name: self.name@,
            namespace: self.namespace@,
            uid: match self.uid {
                Some(u) => Some(u@),
                None => None,
            },
            api_version: self.api_version@,
            kind: self.kind@,
            labels: self.labels@,
            annotations: self.annotations@,
        }
    }
}

/// The name a resource goes by: its name, else its name prefix, else the
/// empty name.
pub open spec fn name_any(meta: ObjectMeta) -> Seq<char> {
    match meta.name {
        Some(n) => n@,
        None => match meta.generate_name {
            Some(g) => g@,
            None => Seq::empty(),
        },
    }
}

/// The text of an optional string, the empty text when absent.
pub open spec fn text_or_empty(o: Option<String>) -> Seq<char> {
    match o {
        Some(s) => s@,
        None => Seq::empty(),
    }
}

/// The pairs of an optional map, none when absent.
pub open spec fn map_or_empty(o: Option<StringMap<String>>) -> Map<Seq<char>, Seq<char>> {
    match o {
        Some(m) => m@,
        None => Map::empty(),
    }
}

/// A copy of an optional string.
fn copy_opt(o: &Option<String>) -> (r: Option<String>)
    ensures
        match (o, r) {
            (Some(a), Some(b)) => a@ == b@,
            (None, None) => true,
            _ => false,
        },
{
    match o {
        Some(s) => Some(s.clone()),
        None => None,
    }
}

/// A copy of an optional map, the empty map when absent.
fn copy_map(o: &Option<StringMap<String>>) -> (r: StringMap<String>)
    ensures
        r@ == map_or_empty(*o),
{
    match o {
        Some(m) => m.duplicate(),
        None => StringMap::new(),
    }
}

impl Context {
    /// The context of a resource with metadata `meta`, of the given API
    /// version and kind.
    pub fn new(meta: &ObjectMeta, api_version: &str, kind: &str) -> (c: Self)
        ensures
            c@.name == name_any(*meta),
            c@.namespace == text_or_empty(meta.namespace),
            c@.uid == match meta.uid {
                Some(u) => Some(u@),
                None => None::<Seq<char>>,
            },
            c@.api_version == api_version@,
            c@.kind == kind@,
            c@.labels == map_or_empty(meta.labels),
            c@.annotations == map_or_empty(meta.annotations),
    {
        let name = match &meta.name {
            Some(n) => n.clone(),
            None => match &meta.generate_name {
                Some(g) => g.clone(),
                None => String::new(),
            },
        };
        let namespace = match &meta.namespace {
            Some(n) => n.clone(),
            None => String::new(),
        };
        Context {
            name,
            namespace,
            uid: copy_opt(&meta.uid),
            api_version: text(api_version),
            kind: text(kind),
            labels: copy_map(&meta.labels),
            annotations: copy_map(&meta.annotations),
        }
    }

    /// The resource's name.
    pub fn name(&self) -> (r: &str)
        ensures
            r@ == self@.name,
    {
        self.name.as_str()
    }

    /// The resource's namespace.
    pub fn namespace(&self) -> (r: &str)
        ensures
            r@ == self@.namespace,
    {
        self.namespace.as_str()
    }

    /// The resource's labels.
    pub fn labels(&self) -> (r: Labels)
        ensures
            r@ == self@.labels,
    {
        Labels(self.labels.duplicate())
    }

    /// The resource's annotations.
    pub fn annotations(&self) -> (r: Annotations)
        ensures
            r@ == self@.annotations,
    {
        Annotations(self.annotations.duplicate())
    }

    /// A reference that makes the resource the controlling owner of a
    /// child: deleting the resource deletes the child.
    pub fn owner_reference(&self) -> (o: OwnerReference)
        ensures
            o.api_version@ == self@.api_version,
            o.kind@ == self@.kind,
            o.name@ == self@.name,
            o.uid@ == match self@.uid {
                Some(u) => u,
                None => Seq::<char>::empty(),
            },
            o.controller == Some(true),
            o.block_owner_deletion == Some(true),
    {
        OwnerReference {
            api_version: self.api_version.clone(),
            kind: self.kind.clone(),
            name: self.name.clone(),
            uid: match &self.uid {
                Some(u) => u.clone(),
                None => String::new(),
            },
            controller: Some(true),
            block_owner_deletion: Some(true),
        }
    }

    /// Look at the resource again after `duration`.
    pub fn requeue_after(&self, duration: Duration) -> (a: ControllerAction)
        ensures
            a.requeue_after == Some(duration),
    {
        ControllerAction::requeue(duration)
    }

    /// Look at the resource again only once it changes.
    pub fn done(&self) -> (a: ControllerAction)
        ensures
            a.requeue_after is None,
    {
        ControllerAction::await_change()
    }

    /// An event of type `type_` about the resource. `stamp` is the
    /// recording time in nanoseconds since the epoch, absent when it does
    /// not fit; `pod` is the name of the reporting pod, if known.
    fn record(
        &self,
        type_: &str,
        reason: &str,
        message: &str,
        stamp: Option<i64>,
        pod: Option<&str>,
    ) -> (e: Event)
        ensures
            event_about(self@, e, type_@, reason@, message@, stamp, pod),
    {
        let nanos: i64 = match stamp {
            Some(n) => n,
            None => 0,
        };
        let bits: u64 = nanos as u64;
        let event_name = self.name.clone().concat(".").concat(hex_string(bits).as_str());
        let instance = match pod {
            Some(p) => text(p),
            None => text("operator"),
        };
        let metadata = ObjectMeta {
            name: Some(event_name),
            generate_name: None,
            namespace: Some(self.namespace.clone()),
            uid: None,
            labels: None,
            annotations: None,
            owner_references: None,
            finalizers: None,
            deletion_timestamp: None,
        };
        Event {
            metadata,
            type_: Some(text(type_)),
            reason: Some(text(reason)),
            message: Some(text(message)),
            involved_object: ObjectReference {
                api_version: Some(self.api_version.clone()),
                kind: Some(self.kind.clone()),
                name: Some(self.name.clone()),
                namespace: Some(self.namespace.clone()),
                uid: copy_opt(&self.uid),
            },
            count: Some(1),
            reporting_component: Some(text("k8s-operator")),
            reporting_instance: Some(instance),
        }
    }

    /// A normal event about the resource.
    pub fn event(&self, reason: &str, message: &str, stamp: Option<i64>, pod: Option<&str>) -> (e:
        Event)
        ensures
            event_about(self@, e, "Normal"@, reason@, message@, stamp, pod),
    {
        self.record("Normal", reason, message, stamp, pod)
    }

    /// A warning event about the resource.
    pub fn warning(&self, reason: &str, message: &str, stamp: Option<i64>, pod: Option<&str>) -> (e:
        Event)
        ensures
            event_about(self@, e, "Warning"@, reason@, message@, stamp, pod),
    {
        self.record("Warning", reason, message, stamp, pod)
    }
}

/// The text of an optional string is `t`.
pub open spec fn is_text(o: Option<String>, t: Seq<char>) -> bool {
    o matches Some(s) && s@ == t
}

/// The name of an event recorded at `stamp`: the resource's name, a dot
/// and the stamp's bits in hexadecimal (0 when there is no stamp).
pub open spec fn event_name(name: Seq<char>, stamp: Option<i64>) -> Seq<char> {
    let nanos: i64 = match stamp {
        Some(n) => n,
        None => 0,
    };
    name + "."@ + hex((nanos as u64) as nat)
}

/// `e` is the event of the given type, reason and message about the
/// resource of context `c`, recorded at `stamp` by pod `pod` (the
/// instance `operator` when unknown), counted once, reported by the
/// component `k8s-operator`.
pub open spec fn event_about(
    c: ContextView,
    e: Event,
    type_: Seq<char>,
    reason: Seq<char>,
    message: Seq<char>,
    stamp: Option<i64>,
    pod: Option<&str>,
) -> bool {
    &&& is_text(e.metadata.name, event_name(c.name, stamp))
    &&& is_text(e.metadata.namespace, c.namespace)
    &&& e.metadata.generate_name is None
    &&& e.metadata.uid is None
    &&& e.metadata.labels is None
    &&& e.metadata.annotations is None
    &&& e.metadata.owner_references is None
    &&& e.metadata.finalizers is None
    &&& e.metadata.deletion_timestamp is None
    &&& is_text(e.type_, type_)
    &&& is_text(e.reason, reason)
    &&& is_text(e.message, message)
    &&& is_text(e.involved_object.api_version, c.api_version)
    &&& is_text(e.involved_object.kind, c.kind)
    &&& is_text(e.involved_object.name, c.name)
    &&& is_text(e.involved_object.namespace, c.namespace)
    &&& match (e.involved_object.uid, c.uid) {
        (Some(a), Some(b)) => a@ == b,
        (None, None) => true,
        _ => false,
    }
    &&& e.count == Some(1i32)
    &&& is_text(e.reporting_component, "k8s-operator"@)
    &&& is_text(
        e.reporting_instance,
        match pod {
            Some(p) => p@,
            None => "operator"@,
        },
    )
}

/// A status condition: its type, status (`True` or `False`), reason,
/// message, and the time it was last set, as RFC 3339 text.
#[derive(Clone, Debug)]
pub struct Condition {
    pub type_: String,
    pub status: String,
    pub reason: String,
    pub message: String,
    pub last_transition_time: String,
}

/// The status text of a condition that holds or not.
pub open spec fn status_text(b: bool) -> Seq<char> {
    if b {
        "True"@
    } else {
        "False"@
    }
}

/// The status text of a condition that holds or not.
fn status_of(b: bool) -> (s: String)
    ensures
        s@ == status_text(b),
{
    if b {
        text("True")
    } else {
        text("False")
    }
}

/// A condition of the given type and status, with the given reason, an
/// empty message, set now.
pub open spec fn condition_is(c: Condition, type_: Seq<char>, status: bool, reason: Seq<char>) -> bool {
    &&& c.type_@ == type_
    &&& c.status@ == status_text(status)
    &&& c.reason@ == reason
    &&& c.message@ == Seq::<char>::empty()
}

impl Condition {
    fn make(type_: String, status: bool, reason: String) -> (c: Self)
        ensures
            condition_is(c, type_@, status, reason@),
    {
        Condition::made_at(type_, status, reason, utc_now_rfc3339())
    }

    /// A condition of type `type_`, holding when `status`, with reason
    /// `reason` and an empty message, set at `time`.
    pub fn made_at(type_: String, status: bool, reason: String, time: String) -> (c: Self)
        ensures
            condition_is(c, type_@, status, reason@),
            c.last_transition_time == time,
    {
        Condition {
            type_,
            status: status_of(status),
            reason,
            message: String::new(),
            last_transition_time: time,
        }
    }

    /// `Ready`, with reason `Ready` or `NotReady`.
    pub fn ready(status: bool) -> (c: Self)
        ensures
            condition_is(
                c,
                "Ready"@,
                status,
                if status {
                    "Ready"@
                } else {
                    "NotReady"@
                },
            ),
    {
        let reason = if status {
            text("Ready")
        } else {
            text("NotReady")
        };
        Condition::make(text("Ready"), status, reason)
    }

    /// `Available`, with reason `Available` or `Unavailable`.
    pub fn available(status: bool) -> (c: Self)
        ensures
            condition_is(
                c,
                "Available"@,
                status,
                if status {
                    "Available"@
                } else {
                    "Unavailable"@
                },
            ),
    {
        let reason = if status {
            text("Available")
        } else {
            text("Unavailable")
        };
        Condition::make(text("Available"), status, reason)
    }

    /// `Progressing`, with reason `Progressing` or `Complete`.
    pub fn progressing(status: bool) -> (c: Self)
        ensures
            condition_is(
                c,
                "Progressing"@,
                status,
                if status {
                    "Progressing"@
                } else {
                    "Complete"@
                },
            ),
    {
        let reason = if status {
            text("Progressing")
        } else {
            text("Complete")
        };
        Condition::make(text("Progressing"), status, reason)
    }

    /// A condition of type `type_`, with an empty reason.
    pub fn custom(type_: &str, status: bool) -> (c: Self)
        ensures
            condition_is(c, type_@, status, Seq::<char>::empty()),
    {
        Condition::make(text(type_), status, String::new())
    }

    /// Sets the reason.
    pub fn reason(self, reason: &str) -> (c: Self)
        ensures
            c.reason@ == reason@,
            c.type_ == self.type_,
            c.status == self.status,
            c.message == self.message,
            c.last_transition_time == self.last_transition_time,
    {
        Condition { reason: text(reason), ..self }
    }

    /// Sets the message.
    pub fn message(self, message: &str) -> (c: Self)
        ensures
            c.message@ == message@,
            c.type_ == self.type_,
            c.status == self.status,
            c.reason == self.reason,
            c.last_transition_time == self.last_transition_time,
    {
        Condition { message: text(message), ..self }
    }
}

} // verus!
