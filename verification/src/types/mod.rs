//! Typed builders for Kubernetes objects and their rendering into API
//! objects.
pub mod container;
pub mod core_objects;
pub mod metadata;
pub mod networking;
pub mod rbac;
pub mod render;
pub mod volume;
pub mod workloads;
