//! Rendering builder values into API objects, and the shared vocabulary of
//! the builders' contracts.
use crate::api::core_v1::LocalObjectReference;
use crate::api::meta::{ObjectMeta, OwnerReference};
use crate::kvmap::StringMap;
use crate::text::text;
use vstd::prelude::*;

verus! {

/// A builder of a namespaced child object of the reconciled resource.
pub trait ChildResource: Sized {
    type K8sType;

    /// The name of the object.
    spec fn object_name(&self) -> Seq<char>;

    /// `out` is the API object that `self` renders to in `namespace`,
    /// owned by `owner_ref` when one is given.
    spec fn renders_in(
        self,
        namespace: Seq<char>,
        owner_ref: Option<OwnerReference>,
        out: Self::K8sType,
    ) -> bool;

    /// The name of the object.
    fn name(&self) -> (r: &str)
        ensures
            r@ == self.object_name(),
    ;

    /// Renders the object into `namespace`, owned by `owner_ref`.
    fn into_k8s(self, namespace: &str, owner_ref: Option<OwnerReference>) -> (out: Self::K8sType)
        ensures
            self.renders_in(namespace@, owner_ref, out),
    ;
}

/// The owner list of a child object: the owner alone, or none.
pub open spec fn owned_by(owner: Option<OwnerReference>, out: Option<Vec<OwnerReference>>) -> bool {
    match owner {
        None => out is None,
        Some(o) => out matches Some(v) && v@ == seq![o],
    }
}

/// Two optional maps are both absent, or both present with the same pairs.
pub open spec fn same_pairs<V>(a: Option<StringMap<V>>, b: Option<StringMap<V>>) -> bool {
    match (a, b) {
        (None, None) => true,
        (Some(x), Some(y)) => x.pairs() == y.pairs(),
        _ => false,
    }
}

/// Metadata with the given name, namespace (absent for cluster-wide
/// objects), labels, annotations and owner.
pub open spec fn meta_renders(
    k: ObjectMeta,
    name: String,
    namespace: Option<Seq<char>>,
    labels: Option<StringMap<String>>,
    annotations: Option<StringMap<String>>,
    owner: Option<OwnerReference>,
) -> bool {
    &&& k.name == Some(name)
    &&& match namespace {
        None => k.namespace is None,
        Some(ns) => some_text(k.namespace, ns),
    }
    &&& same_pairs(k.labels, labels)
    &&& same_pairs(k.annotations, annotations)
    &&& owned_by(owner, k.owner_references)
    &&& plain_meta(k)
}

/// Metadata that the server fills in is left out: no generated name, no
/// uid, no finalizer, no deletion time.
pub open spec fn plain_meta(k: ObjectMeta) -> bool {
    &&& k.generate_name is None
    &&& k.uid is None
    &&& k.finalizers is None
    &&& k.deletion_timestamp is None
}

/// The owner list holding `owner` alone, if given.
pub fn owner_list(owner: Option<OwnerReference>) -> (r: Option<Vec<OwnerReference>>)
    ensures
        owned_by(owner, r),
{
    match owner {
        None => None,
        Some(o) => {
            let mut v = Vec::new();
            v.push(o);
            proof {
                assert(v@ =~= seq![o]);
            }
            Some(v)
        },
    }
}

/// Metadata of a namespaced object.
pub fn namespaced_meta(
    name: String,
    namespace: &str,
    labels: Option<StringMap<String>>,
    annotations: Option<StringMap<String>>,
    owner: Option<OwnerReference>,
) -> (k: ObjectMeta)
    ensures
        meta_renders(k, name, Some(namespace@), labels, annotations, owner),
{
    ObjectMeta {
        name: Some(name),
        namespace: Some(text(namespace)),
        labels,
        annotations,
        owner_references: owner_list(owner),
        generate_name: None,
        uid: None,
        finalizers: None,
        deletion_timestamp: None,
    }
}

/// Metadata of a cluster-wide object, or of a template, which has no
/// namespace.
pub fn unnamespaced_meta(
    name: String,
    labels: Option<StringMap<String>>,
    owner: Option<OwnerReference>,
) -> (k: ObjectMeta)
    ensures
        meta_renders(k, name, None, labels, None, owner),
{
    ObjectMeta {
        name: Some(name),
        namespace: None,
        labels,
        annotations: None,
        owner_references: owner_list(owner),
        generate_name: None,
        uid: None,
        finalizers: None,
        deletion_timestamp: None,
    }
}

/// Metadata of a pod template: the given labels and nothing else.
pub open spec fn template_meta_renders(k: ObjectMeta, labels: StringMap<String>) -> bool {
    &&& k.name is None
    &&& k.namespace is None
    &&& same_pairs(k.labels, Some(labels))
    &&& k.annotations is None
    &&& k.owner_references is None
    &&& plain_meta(k)
}

/// Metadata of a pod template.
pub fn template_meta(labels: StringMap<String>) -> (k: ObjectMeta)
    ensures
        template_meta_renders(k, labels),
{
    ObjectMeta {
        name: None,
        namespace: None,
        labels: Some(labels),
        annotations: None,
        owner_references: None,
        generate_name: None,
        uid: None,
        finalizers: None,
        deletion_timestamp: None,
    }
}

/// References to image pull secrets by name; absent when there are none.
pub open spec fn pull_secrets_render(
    names: Seq<String>,
    out: Option<Vec<LocalObjectReference>>,
) -> bool {
    if names.len() == 0 {
        out is None
    } else {
        out matches Some(v) && v@.len() == names.len() && forall|i: int|
            0 <= i < names.len() ==> (#[trigger] v@[i]).name == names[i]
    }
}

/// References to image pull secrets by name; absent when there are none.
pub fn pull_secret_refs(names: Vec<String>) -> (r: Option<Vec<LocalObjectReference>>)
    ensures
        pull_secrets_render(names@, r),
{
    if names.len() == 0 {
        return None;
    }
    let ghost orig = names@;
    let mut rest = names;
    let mut out: Vec<LocalObjectReference> = Vec::new();
    while rest.len() > 0
        invariant
            out@.len() + rest@.len() == orig.len(),
            rest@ == orig.subrange(out@.len() as int, orig.len() as int),
            forall|i: int| 0 <= i < out@.len() ==> (#[trigger] out@[i]).name == orig[i],
        decreases rest@.len(),
    {
        let ghost n = out@.len();
        let name = rest.remove(0);
        proof {
            assert(name == orig[n as int]);
        }
        out.push(LocalObjectReference { name });
        proof {
            assert(rest@ =~= orig.subrange(out@.len() as int, orig.len() as int));
            assert forall|i: int| 0 <= i < out@.len() implies (#[trigger] out@[i]).name == orig[i] by {
                if i < n {
                    assert(out@[i] == out@.drop_last()[i]);
                }
            }
        }
    }
    Some(out)
}

/// A builder value that renders to an API object.
pub trait ToK8s: Sized {
    type K8s;

    /// `out` is the API object that `self` renders to.
    spec fn renders_as(self, out: Self::K8s) -> bool;

    /// Renders `self`.
    fn to_k8s(self) -> (out: Self::K8s)
        ensures
            self.renders_as(out),
    ;
}

/// Each element of `src` renders to the element of `out` at its position.
pub open spec fn all_render<T: ToK8s>(src: Seq<T>, out: Seq<T::K8s>) -> bool {
    &&& src.len() == out.len()
    &&& forall|i: int| 0 <= i < src.len() ==> #[trigger] src[i].renders_as(out[i])
}

/// An empty list renders to an absent field, any other list to the list of
/// its rendered elements.
pub open spec fn renders_list<T: ToK8s>(src: Seq<T>, out: Option<Vec<T::K8s>>) -> bool {
    if src.len() == 0 {
        out is None
    } else {
        out matches Some(v) && all_render(src, v@)
    }
}

/// An absent value renders to an absent field, a present one to its
/// rendering.
pub open spec fn renders_opt<T: ToK8s>(src: Option<T>, out: Option<T::K8s>) -> bool {
    match src {
        None => out is None,
        Some(s) => out matches Some(o) && s.renders_as(o),
    }
}

/// A list that is absent when empty.
pub open spec fn nonempty<T>(v: Vec<T>) -> Option<Vec<T>> {
    if v@.len() == 0 {
        None
    } else {
        Some(v)
    }
}

/// A map that is absent when empty.
pub open spec fn nonempty_map<V>(m: StringMap<V>) -> Option<StringMap<V>> {
    if m.pairs().len() == 0 {
        None
    } else {
        Some(m)
    }
}

/// `after` is `before` with one more element at its end.
pub open spec fn pushed<T>(before: Seq<T>, after: Seq<T>) -> bool {
    after.len() > 0 && after == before.push(after.last())
}

/// The text of a present string.
pub open spec fn some_text(o: Option<String>, s: Seq<char>) -> bool {
    o matches Some(t) && t@ == s
}

/// Each string of `v` has the text of the element of `w` at its position.
pub open spec fn texts_match(v: Seq<String>, w: Seq<&str>) -> bool {
    &&& v.len() == w.len()
    &&& forall|i: int| 0 <= i < v.len() ==> #[trigger] v[i]@ == w[i]@
}

/// Each string of `v` has the text at its position in `w`.
pub open spec fn texts_are(v: Seq<String>, w: Seq<Seq<char>>) -> bool {
    &&& v.len() == w.len()
    &&& forall|i: int| 0 <= i < v.len() ==> #[trigger] v[i]@ == w[i]
}

/// Some string of `v` has text `s`.
pub open spec fn has_text(v: Seq<String>, s: Seq<char>) -> bool {
    exists|i: int| 0 <= i < v.len() && #[trigger] v[i]@ == s
}

/// No two strings of `v` have the same text.
pub open spec fn distinct_texts(v: Seq<String>) -> bool {
    forall|i: int, j: int| 0 <= i < v.len() && 0 <= j < v.len() && i != j ==> v[i]@ != v[j]@
}

/// Whether some string of `v` has the text of `s`.
pub fn contains_text(v: &Vec<String>, s: &str) -> (r: bool)
    ensures
        r == has_text(v@, s@),
{
    let wanted = text(s);
    let mut i: usize = 0;
    while i < v.len()
        invariant
            0 <= i <= v@.len(),
            wanted@ == s@,
            forall|j: int| 0 <= j < i ==> v@[j]@ != s@,
        decreases v@.len() - i,
    {
        if v[i] == wanted {
            proof {
                assert(v@[i as int]@ == s@);
            }
            return true;
        }
        i = i + 1;
    }
    false
}

/// Renders each element of a list, in order.
pub fn render_all<T: ToK8s>(v: Vec<T>) -> (r: Vec<T::K8s>)
    ensures
        all_render(v@, r@),
{
    let ghost orig = v@;
    let mut rest = v;
    let mut out: Vec<T::K8s> = Vec::new();
    while rest.len() > 0
        invariant
            out@.len() + rest@.len() == orig.len(),
            rest@ == orig.subrange(out@.len() as int, orig.len() as int),
            forall|i: int| 0 <= i < out@.len() ==> #[trigger] orig[i].renders_as(out@[i]),
        decreases rest@.len(),
    {
        let ghost n = out@.len();
        let x = rest.remove(0);
        proof {
            assert(x == orig[n as int]);
        }
        let y = x.to_k8s();
        out.push(y);
        proof {
            assert(rest@ =~= orig.subrange(out@.len() as int, orig.len() as int));
            assert forall|i: int| 0 <= i < out@.len() implies #[trigger] orig[i].renders_as(
                out@[i],
            ) by {
                if i < n {
                    assert(out@[i] == out@.drop_last()[i]);
                }
            }
        }
    }
    out
}

/// Renders a list, absent when empty.
pub fn render_list<T: ToK8s>(v: Vec<T>) -> (r: Option<Vec<T::K8s>>)
    ensures
        renders_list(v@, r),
{
    if v.len() == 0 {
        None
    } else {
        Some(render_all(v))
    }
}

/// Renders an optional value.
pub fn render_opt<T: ToK8s>(o: Option<T>) -> (r: Option<T::K8s>)
    ensures
        renders_opt(o, r),
{
    match o {
        None => None,
        Some(x) => Some(x.to_k8s()),
    }
}

/// A list, absent when empty.
pub fn some_if_nonempty<T>(v: Vec<T>) -> (r: Option<Vec<T>>)
    ensures
        r == nonempty(v),
{
    if v.len() == 0 {
        None
    } else {
        Some(v)
    }
}

/// A map, absent when empty.
pub fn some_if_nonempty_map<V: View>(m: StringMap<V>) -> (r: Option<StringMap<V>>)
    ensures
        r == nonempty_map(m),
{
    if m.is_empty() {
        None
    } else {
        Some(m)
    }
}

} // verus!
