//! Workload controllers (`apps/v1`).
use crate::api::core_v1::{PersistentVolumeClaim, PodTemplateSpec};
use crate::api::meta::{LabelSelector, ObjectMeta};
use vstd::prelude::*;

verus! {

#[derive(Clone, Debug)]
pub struct DeploymentSpec {
    pub replicas: Option<i32>,
    pub selector: LabelSelector,
    pub template: PodTemplateSpec,
}

#[derive(Clone, Debug)]
pub struct Deployment {
    pub metadata: ObjectMeta,
    pub spec: Option<DeploymentSpec>,
}

#[derive(Clone, Debug)]
pub struct StatefulSetSpec {
    pub replicas: Option<i32>,
    pub selector: LabelSelector,
    pub service_name: Option<String>,
    pub pod_management_policy: Option<String>,
    pub template: PodTemplateSpec,
    pub volume_claim_templates: Option<Vec<PersistentVolumeClaim>>,
}

#[derive(Clone, Debug)]
pub struct StatefulSet {
    pub metadata: ObjectMeta,
    pub spec: Option<StatefulSetSpec>,
}

#[derive(Clone, Debug)]
pub struct DaemonSetSpec {
    pub selector: LabelSelector,
    pub template: PodTemplateSpec,
}

#[derive(Clone, Debug)]
pub struct DaemonSet {
    pub metadata: ObjectMeta,
    pub spec: Option<DaemonSetSpec>,
}

} // verus!
