//! Core objects (`core/v1`).
use crate::api::meta::ObjectMeta;
use crate::kvmap::StringMap;
use vstd::prelude::*;

verus! {

#[derive(Clone, Debug)]
pub struct ContainerPort {
    pub container_port: i32,
    pub name: Option<String>,
    pub protocol: Option<String>,
}

#[derive(Clone, Debug)]
pub struct SecretKeySelector {
    pub name: String,
    pub key: String,
    pub optional: Option<bool>,
}

#[derive(Clone, Debug)]
pub struct ConfigMapKeySelector {
    pub name: String,
    pub key: String,
    pub optional: Option<bool>,
}

#[derive(Clone, Debug)]
pub struct ObjectFieldSelector {
    pub field_path: String,
    pub api_version: Option<String>,
}

#[derive(Clone, Debug)]
pub struct EnvVarSource {
    pub secret_key_ref: Option<SecretKeySelector>,
    pub config_map_key_ref: Option<ConfigMapKeySelector>,
    pub field_ref: Option<ObjectFieldSelector>,
}

#[derive(Clone, Debug)]
pub struct EnvVar {
    pub name: String,
    pub value: Option<String>,
    pub value_from: Option<EnvVarSource>,
}

#[derive(Clone, Debug)]
pub struct SecretEnvSource {
    pub name: String,
    pub optional: Option<bool>,
}

#[derive(Clone, Debug)]
pub struct ConfigMapEnvSource {
    pub name: String,
    pub optional: Option<bool>,
}

#[derive(Clone, Debug)]
pub struct EnvFromSource {
    pub secret_ref: Option<SecretEnvSource>,
    pub config_map_ref: Option<ConfigMapEnvSource>,
}

/// Compute resource requests and limits; values are quantities such as
/// `500m` or `1Gi`.
#[derive(Clone, Debug)]
pub struct ResourceRequirements {
    pub requests: Option<StringMap<String>>,
    pub limits: Option<StringMap<String>>,
}

#[derive(Clone, Debug)]
pub struct VolumeMount {
    pub name: String,
    pub mount_path: String,
    pub sub_path: Option<String>,
    pub read_only: Option<bool>,
}

/// An HTTP GET probe on a numbered port.
#[derive(Clone, Debug)]
pub struct HTTPGetAction {
    pub path: Option<String>,
    pub port: i32,
}

/// A TCP connect probe on a numbered port.
#[derive(Clone, Debug)]
pub struct TCPSocketAction {
    pub port: i32,
}

#[derive(Clone, Debug)]
pub struct ExecAction {
    pub command: Option<Vec<String>>,
}

#[derive(Clone, Debug)]
pub struct GRPCAction {
    pub port: i32,
    pub service: Option<String>,
}

#[derive(Clone, Debug)]
pub struct Probe {
    pub http_get: Option<HTTPGetAction>,
    pub tcp_socket: Option<TCPSocketAction>,
    pub exec_: Option<ExecAction>,
    pub grpc: Option<GRPCAction>,
    pub initial_delay_seconds: Option<i32>,
    pub period_seconds: Option<i32>,
    pub timeout_seconds: Option<i32>,
    pub success_threshold: Option<i32>,
    pub failure_threshold: Option<i32>,
}

#[derive(Clone, Debug)]
pub struct SecurityContext {
    pub run_as_user: Option<i64>,
    pub run_as_group: Option<i64>,
    pub run_as_non_root: Option<bool>,
    pub read_only_root_filesystem: Option<bool>,
    pub privileged: Option<bool>,
    pub allow_privilege_escalation: Option<bool>,
}

#[derive(Clone, Debug)]
pub struct Container {
    pub name: String,
    pub image: Option<String>,
    pub image_pull_policy: Option<String>,
    pub command: Option<Vec<String>>,
    pub args: Option<Vec<String>>,
    pub working_dir: Option<String>,
    pub ports: Option<Vec<ContainerPort>>,
    pub env: Option<Vec<EnvVar>>,
    pub env_from: Option<Vec<EnvFromSource>>,
    pub resources: Option<ResourceRequirements>,
    pub volume_mounts: Option<Vec<VolumeMount>>,
    pub liveness_probe: Option<Probe>,
    pub readiness_probe: Option<Probe>,
    pub startup_probe: Option<Probe>,
    pub security_context: Option<SecurityContext>,
}

#[derive(Clone, Debug)]
pub struct EmptyDirVolumeSource {
    pub medium: Option<String>,
}

#[derive(Clone, Debug)]
pub struct SecretVolumeSource {
    pub secret_name: Option<String>,
    pub optional: Option<bool>,
    pub default_mode: Option<i32>,
}

#[derive(Clone, Debug)]
pub struct ConfigMapVolumeSource {
    pub name: String,
    pub optional: Option<bool>,
    pub default_mode: Option<i32>,
}

#[derive(Clone, Debug)]
pub struct PersistentVolumeClaimVolumeSource {
    pub claim_name: String,
    pub read_only: Option<bool>,
}

#[derive(Clone, Debug)]
pub struct HostPathVolumeSource {
    pub path: String,
    pub type_: Option<String>,
}

#[derive(Clone, Debug)]
pub struct SecretProjection {
    pub name: String,
}

#[derive(Clone, Debug)]
pub struct ConfigMapProjection {
    pub name: String,
}

#[derive(Clone, Debug)]
pub struct ServiceAccountTokenProjection {
    pub path: String,
    pub expiration_seconds: Option<i64>,
}

#[derive(Clone, Debug)]
pub struct VolumeProjection {
    pub secret: Option<SecretProjection>,
    pub config_map: Option<ConfigMapProjection>,
    pub service_account_token: Option<ServiceAccountTokenProjection>,
}

#[derive(Clone, Debug)]
pub struct ProjectedVolumeSource {
    pub sources: Option<Vec<VolumeProjection>>,
    pub default_mode: Option<i32>,
}

#[derive(Clone, Debug)]
pub struct ResourceFieldSelector {
    pub container_name: Option<String>,
    pub resource: String,
}

#[derive(Clone, Debug)]
pub struct DownwardAPIVolumeFile {
    pub path: String,
    pub field_ref: Option<ObjectFieldSelector>,
    pub resource_field_ref: Option<ResourceFieldSelector>,
}

#[derive(Clone, Debug)]
pub struct DownwardAPIVolumeSource {
    pub items: Option<Vec<DownwardAPIVolumeFile>>,
    pub default_mode: Option<i32>,
}

/// A pod volume; exactly one source field is set.
#[derive(Clone, Debug)]
pub struct Volume {
    pub name: String,
    pub empty_dir: Option<EmptyDirVolumeSource>,
    pub secret: Option<SecretVolumeSource>,
    pub config_map: Option<ConfigMapVolumeSource>,
    pub persistent_volume_claim: Option<PersistentVolumeClaimVolumeSource>,
    pub host_path: Option<HostPathVolumeSource>,
    pub projected: Option<ProjectedVolumeSource>,
    pub downward_api: Option<DownwardAPIVolumeSource>,
}

#[derive(Clone, Debug)]
pub struct LocalObjectReference {
    pub name: String,
}

#[derive(Clone, Debug)]
pub struct PodSpec {
    pub containers: Vec<Container>,
    pub init_containers: Option<Vec<Container>>,
    pub volumes: Option<Vec<Volume>>,
    pub service_account_name: Option<String>,
    pub restart_policy: Option<String>,
    pub node_selector: Option<StringMap<String>>,
    pub image_pull_secrets: Option<Vec<LocalObjectReference>>,
}

#[derive(Clone, Debug)]
pub struct Pod {
    pub metadata: ObjectMeta,
    pub spec: Option<PodSpec>,
}

#[derive(Clone, Debug)]
pub struct PodTemplateSpec {
    pub metadata: Option<ObjectMeta>,
    pub spec: Option<PodSpec>,
}

#[derive(Clone, Debug)]
pub struct ConfigMap {
    pub metadata: ObjectMeta,
    pub data: Option<StringMap<String>>,
    pub binary_data: Option<StringMap<Vec<u8>>>,
}

#[derive(Clone, Debug)]
pub struct Secret {
    pub metadata: ObjectMeta,
    pub type_: Option<String>,
    pub data: Option<StringMap<Vec<u8>>>,
    pub string_data: Option<StringMap<String>>,
}

#[derive(Clone, Debug)]
pub struct ServicePort {
    pub port: i32,
    pub target_port: Option<i32>,
    pub name: Option<String>,
    pub protocol: Option<String>,
    pub node_port: Option<i32>,
}

#[derive(Clone, Debug)]
pub struct ServiceSpec {
    pub selector: Option<StringMap<String>>,
    pub ports: Option<Vec<ServicePort>>,
    pub type_: Option<String>,
    pub cluster_ip: Option<String>,
    pub external_traffic_policy: Option<String>,
}

#[derive(Clone, Debug)]
pub struct Service {
    pub metadata: ObjectMeta,
    pub spec: Option<ServiceSpec>,
}

#[derive(Clone, Debug)]
pub struct ServiceAccount {
    pub metadata: ObjectMeta,
    pub automount_service_account_token: Option<bool>,
    pub image_pull_secrets: Option<Vec<LocalObjectReference>>,
}

/// Storage requests of a claim; the builders set requests only.
#[derive(Clone, Debug)]
pub struct VolumeResourceRequirements {
    pub requests: Option<StringMap<String>>,
}

#[derive(Clone, Debug)]
pub struct PersistentVolumeClaimSpec {
    pub access_modes: Option<Vec<String>>,
    pub storage_class_name: Option<String>,
    pub resources: Option<VolumeResourceRequirements>,
}

#[derive(Clone, Debug)]
pub struct PersistentVolumeClaim {
    pub metadata: ObjectMeta,
    pub spec: Option<PersistentVolumeClaimSpec>,
}

/// A reference to an object, as an event names the object it is about.
#[derive(Clone, Debug)]
pub struct ObjectReference {
    pub api_version: Option<String>,
    pub kind: Option<String>,
    pub name: Option<String>,
    pub namespace: Option<String>,
    pub uid: Option<String>,
}

/// An event reported about an object. Its first and last timestamps are
/// the moment at which it is recorded.
#[derive(Clone, Debug)]
pub struct Event {
    pub metadata: ObjectMeta,
    pub type_: Option<String>,
    pub reason: Option<String>,
    pub message: Option<String>,
    pub involved_object: ObjectReference,
    pub count: Option<i32>,
    pub reporting_component: Option<String>,
    pub reporting_instance: Option<String>,
}

} // verus!
