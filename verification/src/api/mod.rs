//! The Kubernetes API objects that the builders render to, holding the
//! fields that the builders set. Field names follow the Kubernetes API
//! (`k8s_openapi`); fields the builders never set are left out and are
//! absent (`None`) in the objects sent to the cluster.
pub mod apps_v1;
pub mod batch_v1;
pub mod core_v1;
pub mod meta;
pub mod networking_v1;
pub mod rbac_v1;
