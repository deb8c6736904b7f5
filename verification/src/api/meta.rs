//! Object metadata (`meta/v1`).
use crate::kvmap::StringMap;
use vstd::prelude::*;

verus! {

/// A reference from a child object to the object that owns it.
#[derive(Clone, Debug)]
pub struct OwnerReference {
    pub api_version: String,
    pub kind: String,
    pub name: String,
    pub uid: String,
    pub controller: Option<bool>,
    pub block_owner_deletion: Option<bool>,
}

/// Object metadata. The deletion timestamp is kept as the text of the
/// time at which deletion was requested.
#[derive(Clone, Debug)]
pub struct ObjectMeta {
    pub name: Option<String>,
    pub generate_name: Option<String>,
    pub namespace: Option<String>,
    pub uid: Option<String>,
    pub labels: Option<StringMap<String>>,
    pub annotations: Option<StringMap<String>>,
    pub owner_references: Option<Vec<OwnerReference>>,
    pub finalizers: Option<Vec<String>>,
    pub deletion_timestamp: Option<String>,
}

/// A label selector made of equality requirements only.
#[derive(Clone, Debug)]
pub struct LabelSelector {
    pub match_labels: Option<StringMap<String>>,
}

} // verus!
