//! Access control objects (`rbac.authorization.k8s.io/v1`).
use crate::api::meta::ObjectMeta;
use vstd::prelude::*;

verus! {

#[derive(Clone, Debug)]
pub struct PolicyRule {
    pub api_groups: Option<Vec<String>>,
    pub resources: Option<Vec<String>>,
    pub verbs: Vec<String>,
    pub resource_names: Option<Vec<String>>,
}

#[derive(Clone, Debug)]
pub struct RoleRef {
    pub kind: String,
    pub name: String,
    pub api_group: String,
}

#[derive(Clone, Debug)]
pub struct Subject {
    pub kind: String,
    pub name: String,
    pub namespace: Option<String>,
    pub api_group: Option<String>,
}

#[derive(Clone, Debug)]
pub struct Role {
    pub metadata: ObjectMeta,
    pub rules: Option<Vec<PolicyRule>>,
}

#[derive(Clone, Debug)]
pub struct ClusterRole {
    pub metadata: ObjectMeta,
    pub rules: Option<Vec<PolicyRule>>,
}

#[derive(Clone, Debug)]
pub struct RoleBinding {
    pub metadata: ObjectMeta,
    pub role_ref: RoleRef,
    pub subjects: Option<Vec<Subject>>,
}

#[derive(Clone, Debug)]
pub struct ClusterRoleBinding {
    pub metadata: ObjectMeta,
    pub role_ref: RoleRef,
    pub subjects: Option<Vec<Subject>>,
}

} // verus!
