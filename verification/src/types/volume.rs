//! Pod volumes.
use crate::api::core_v1 as k8s;
use crate::text::text;
use crate::types::render::{all_render, render_all, ToK8s};
use vstd::prelude::*;

verus! {

/// A named volume of a pod.
#[derive(Clone, Debug)]
pub struct Volume {
    pub name: String,
    pub source: VolumeSource,
}

/// Where a volume's content comes from.
#[derive(Clone, Debug)]
pub enum VolumeSource {
    EmptyDir { medium: Option<String> },
    Secret { secret_name: String, optional: Option<bool>, default_mode: Option<i32> },
    ConfigMap { name: String, optional: Option<bool>, default_mode: Option<i32> },
    PersistentVolumeClaim { claim_name: String, read_only: bool },
    HostPath { path: String, type_: Option<String> },
    Projected { sources: Vec<ProjectedVolumeSource>, default_mode: Option<i32> },
    DownwardApi { items: Vec<DownwardApiItem>, default_mode: Option<i32> },
}

/// `source` with its default file mode set to `mode`, where the source has
/// one.
pub open spec fn with_default_mode(source: VolumeSource, mode: i32) -> VolumeSource {
    match source {
        VolumeSource::Secret { secret_name, optional, .. } => VolumeSource::Secret {
            secret_name,
            optional,
            default_mode: Some(mode),
        },
        VolumeSource::ConfigMap { name, optional, .. } => VolumeSource::ConfigMap {
            name,
            optional,
            default_mode: Some(mode),
        },
        VolumeSource::Projected { sources, .. } => VolumeSource::Projected {
            sources,
            default_mode: Some(mode),
        },
        VolumeSource::DownwardApi { items, .. } => VolumeSource::DownwardApi {
            items,
            default_mode: Some(mode),
        },
        _ => source,
    }
}

/// `source` marked optional (or not), where the source can be.
pub open spec fn with_optional(source: VolumeSource, opt: bool) -> VolumeSource {
    match source {
        VolumeSource::Secret { secret_name, default_mode, .. } => VolumeSource::Secret {
            secret_name,
            optional: Some(opt),
            default_mode,
        },
        VolumeSource::ConfigMap { name, default_mode, .. } => VolumeSource::ConfigMap {
            name,
            optional: Some(opt),
            default_mode,
        },
        _ => source,
    }
}

impl Volume {
    /// An empty directory on the node's default medium.
    pub fn empty_dir(name: &str) -> (v: Self)
        ensures
            v.name@ == name@,
            v.source == (VolumeSource::EmptyDir { medium: None }),
    {
        Volume { name: text(name), source: VolumeSource::EmptyDir { medium: None } }
    }

    /// An empty directory held in memory.
    pub fn empty_dir_memory(name: &str) -> (v: Self)
        ensures
            v.name@ == name@,
            v.source matches VolumeSource::EmptyDir { medium: Some(m) } && m@ == "Memory"@,
    {
        Volume { name: text(name), source: VolumeSource::EmptyDir { medium: Some(text("Memory")) } }
    }

    /// The keys of secret `secret_name` as files.
    pub fn secret(name: &str, secret_name: &str) -> (v: Self)
        ensures
            v.name@ == name@,
            v.source matches VolumeSource::Secret { secret_name: s, optional: None, default_mode: None }
                && s@ == secret_name@,
    {
        Volume {
            name: text(name),
            source: VolumeSource::Secret {
                secret_name: text(secret_name),
                optional: None,
                default_mode: None,
            },
        }
    }

    /// The keys of config map `configmap_name` as files.
    pub fn configmap(name: &str, configmap_name: &str) -> (v: Self)
        ensures
            v.name@ == name@,
            v.source matches VolumeSource::ConfigMap { name: m, optional: None, default_mode: None }
                && m@ == configmap_name@,
    {
        Volume {
            name: text(name),
            source: VolumeSource::ConfigMap {
                name: text(configmap_name),
                optional: None,
                default_mode: None,
            },
        }
    }

    /// Persistent volume claim `claim_name`, mounted writable.
    pub fn pvc(name: &str, claim_name: &str) -> (v: Self)
        ensures
            v.name@ == name@,
            v.source matches VolumeSource::PersistentVolumeClaim { claim_name: c, read_only: false }
                && c@ == claim_name@,
    {
        Volume {
            name: text(name),
            source: VolumeSource::PersistentVolumeClaim {
                claim_name: text(claim_name),
                read_only: false,
            },
        }
    }

    /// Directory `path` of the node.
    pub fn host_path(name: &str, path: &str) -> (v: Self)
        ensures
            v.name@ == name@,
            v.source matches VolumeSource::HostPath { path: p, type_: None } && p@ == path@,
    {
        Volume { name: text(name), source: VolumeSource::HostPath { path: text(path), type_: None } }
    }

    /// Several sources projected into one directory.
    pub fn projected(name: &str, sources: Vec<ProjectedVolumeSource>) -> (v: Self)
        ensures
            v.name@ == name@,
            v.source == (VolumeSource::Projected { sources, default_mode: None }),
    {
        Volume { name: text(name), source: VolumeSource::Projected { sources, default_mode: None } }
    }

    /// Pod and container fields as files.
    pub fn downward_api(name: &str, items: Vec<DownwardApiItem>) -> (v: Self)
        ensures
            v.name@ == name@,
            v.source == (VolumeSource::DownwardApi { items, default_mode: None }),
    {
        Volume { name: text(name), source: VolumeSource::DownwardApi { items, default_mode: None } }
    }

    /// Sets the file mode of a secret, config map, projected or downward
    /// API volume; other volumes are returned unchanged.
    pub fn default_mode(self, mode: i32) -> (v: Self)
        ensures
            v.name == self.name,
            v.source == with_default_mode(self.source, mode),
    {
        let source = match self.source {
            VolumeSource::Secret { secret_name, optional, .. } => VolumeSource::Secret {
                secret_name,
                optional,
                default_mode: Some(mode),
            },
            VolumeSource::ConfigMap { name, optional, .. } => VolumeSource::ConfigMap {
                name,
                optional,
                default_mode: Some(mode),
            },
            VolumeSource::Projected { sources, .. } => VolumeSource::Projected {
                sources,
                default_mode: Some(mode),
            },
            VolumeSource::DownwardApi { items, .. } => VolumeSource::DownwardApi {
                items,
                default_mode: Some(mode),
            },
            other => other,
        };
        Volume { name: self.name, source }
    }

    /// Marks a secret or config map volume optional (or not); other volumes
    /// are returned unchanged.
    pub fn optional(self, opt: bool) -> (v: Self)
        ensures
            v.name == self.name,
            v.source == with_optional(self.source, opt),
    {
        let source = match self.source {
            VolumeSource::Secret { secret_name, default_mode, .. } => VolumeSource::Secret {
                secret_name,
                optional: Some(opt),
                default_mode,
            },
            VolumeSource::ConfigMap { name, default_mode, .. } => VolumeSource::ConfigMap {
                name,
                optional: Some(opt),
                default_mode,
            },
            other => other,
        };
        Volume { name: self.name, source }
    }

    /// The API volume, with exactly the field of its source set.
    pub fn into_k8s(self) -> (k: k8s::Volume)
        ensures
            self.renders_as(k),
    {
        let name = self.name;
        match self.source {
            VolumeSource::EmptyDir { medium } => k8s::Volume {
                name,
                empty_dir: Some(k8s::EmptyDirVolumeSource { medium }),
                secret: None,
                config_map: None,
                persistent_volume_claim: None,
                host_path: None,
                projected: None,
                downward_api: None,
            },
            VolumeSource::Secret { secret_name, optional, default_mode } => k8s::Volume {
                name,
                empty_dir: None,
                secret: Some(
                    k8s::SecretVolumeSource {
                        secret_name: Some(secret_name),
                        optional,
                        default_mode,
                    },
                ),
                config_map: None,
                persistent_volume_claim: None,
                host_path: None,
                projected: None,
                downward_api: None,
            },
            VolumeSource::ConfigMap { name: map_name, optional, default_mode } => k8s::Volume {
                name,
                empty_dir: None,
                secret: None,
                config_map: Some(
                    k8s::ConfigMapVolumeSource { name: map_name, optional, default_mode },
                ),
                persistent_volume_claim: None,
                host_path: None,
                projected: None,
                downward_api: None,
            },
            VolumeSource::PersistentVolumeClaim { claim_name, read_only } => k8s::Volume {
                name,
                empty_dir: None,
                secret: None,
                config_map: None,
                persistent_volume_claim: Some(
                    k8s::PersistentVolumeClaimVolumeSource {
                        claim_name,
                        read_only: Some(read_only),
                    },
                ),
                host_path: None,
                projected: None,
                downward_api: None,
            },
            VolumeSource::HostPath { path, type_ } => k8s::Volume {
                name,
                empty_dir: None,
                secret: None,
                config_map: None,
                persistent_volume_claim: None,
                host_path: Some(k8s::HostPathVolumeSource { path, type_ }),
                projected: None,
                downward_api: None,
            },
            VolumeSource::Projected { sources, default_mode } => k8s::Volume {
                name,
                empty_dir: None,
                secret: None,
                config_map: None,
                persistent_volume_claim: None,
                host_path: None,
                projected: Some(
                    k8s::ProjectedVolumeSource {
                        sources: Some(render_all(sources)),
                        default_mode,
                    },
                ),
                downward_api: None,
            },
            VolumeSource::DownwardApi { items, default_mode } => k8s::Volume {
                name,
                empty_dir: None,
                secret: None,
                config_map: None,
                persistent_volume_claim: None,
                host_path: None,
                projected: None,
                downward_api: Some(
                    k8s::DownwardAPIVolumeSource { items: Some(render_all(items)), default_mode },
                ),
            },
        }
    }
}

/// The source fields of an API volume for `source`: the field of the
/// source's kind is set and every other source field is absent.
pub open spec fn volume_source_renders(source: VolumeSource, k: k8s::Volume) -> bool {
    match source {
        VolumeSource::EmptyDir { medium } => {
            &&& k.empty_dir == Some(k8s::EmptyDirVolumeSource { medium })
            &&& k.secret is None && k.config_map is None && k.persistent_volume_claim is None
            &&& k.host_path is None && k.projected is None && k.downward_api is None
        },
        VolumeSource::Secret { secret_name, optional, default_mode } => {
            &&& k.secret == Some(
                k8s::SecretVolumeSource { secret_name: Some(secret_name), optional, default_mode },
            )
            &&& k.empty_dir is None && k.config_map is None && k.persistent_volume_claim is None
            &&& k.host_path is None && k.projected is None && k.downward_api is None
        },
        VolumeSource::ConfigMap { name, optional, default_mode } => {
            &&& k.config_map == Some(k8s::ConfigMapVolumeSource { name, optional, default_mode })
            &&& k.empty_dir is None && k.secret is None && k.persistent_volume_claim is None
            &&& k.host_path is None && k.projected is None && k.downward_api is None
        },
        VolumeSource::PersistentVolumeClaim { claim_name, read_only } => {
            &&& k.persistent_volume_claim == Some(
                k8s::PersistentVolumeClaimVolumeSource { claim_name, read_only: Some(read_only) },
            )
            &&& k.empty_dir is None && k.secret is None && k.config_map is None
            &&& k.host_path is None && k.projected is None && k.downward_api is None
        },
        VolumeSource::HostPath { path, type_ } => {
            &&& k.host_path == Some(k8s::HostPathVolumeSource { path, type_ })
            &&& k.empty_dir is None && k.secret is None && k.config_map is None
            &&& k.persistent_volume_claim is None && k.projected is None && k.downward_api is None
        },
        VolumeSource::Projected { sources, default_mode } => {
            &&& k.projected matches Some(p) && p.default_mode == default_mode && (p.sources matches Some(
                v,
            ) && all_render(sources@, v@))
            &&& k.empty_dir is None && k.secret is None && k.config_map is None
            &&& k.persistent_volume_claim is None && k.host_path is None && k.downward_api is None
        },
        VolumeSource::DownwardApi { items, default_mode } => {
            &&& k.downward_api matches Some(d) && d.default_mode == default_mode && (d.items matches Some(
                v,
            ) && all_render(items@, v@))
            &&& k.empty_dir is None && k.secret is None && k.config_map is None
            &&& k.persistent_volume_claim is None && k.host_path is None && k.projected is None
        },
    }
}

impl ToK8s for Volume {
    type K8s = k8s::Volume;

    open spec fn renders_as(self, k: k8s::Volume) -> bool {
        k.name == self.name && volume_source_renders(self.source, k)
    }

    fn to_k8s(self) -> (k: k8s::Volume) {
        self.into_k8s()
    }
}

/// One source of a projected volume.
#[derive(Clone, Debug)]
pub enum ProjectedVolumeSource {
    Secret { name: String },
    ConfigMap { name: String },
    ServiceAccountToken { path: String, expiration_seconds: Option<i64> },
}

impl ProjectedVolumeSource {
    /// The API projection of this source.
    pub fn into_k8s(self) -> (k: k8s::VolumeProjection)
        ensures
            self.renders_as(k),
    {
        match self {
            ProjectedVolumeSource::Secret { name } => k8s::VolumeProjection {
                secret: Some(k8s::SecretProjection { name }),
                config_map: None,
                service_account_token: None,
            },
            ProjectedVolumeSource::ConfigMap { name } => k8s::VolumeProjection {
                secret: None,
                config_map: Some(k8s::ConfigMapProjection { name }),
                service_account_token: None,
            },
            ProjectedVolumeSource::ServiceAccountToken { path, expiration_seconds } => {
                k8s::VolumeProjection {
                    secret: None,
                    config_map: None,
                    service_account_token: Some(
                        k8s::ServiceAccountTokenProjection { path, expiration_seconds },
                    ),
                }
            },
        }
    }
}

impl ToK8s for ProjectedVolumeSource {
    type K8s = k8s::VolumeProjection;

    open spec fn renders_as(self, k: k8s::VolumeProjection) -> bool {
        match self {
            ProjectedVolumeSource::Secret { name } => k == (k8s::VolumeProjection {
                secret: Some(k8s::SecretProjection { name }),
                config_map: None,
                service_account_token: None,
            }),
            ProjectedVolumeSource::ConfigMap { name } => k == (k8s::VolumeProjection {
                secret: None,
                config_map: Some(k8s::ConfigMapProjection { name }),
                service_account_token: None,
            }),
            ProjectedVolumeSource::ServiceAccountToken { path, expiration_seconds } => k == (
            k8s::VolumeProjection {
                secret: None,
                config_map: None,
                service_account_token: Some(
                    k8s::ServiceAccountTokenProjection { path, expiration_seconds },
                ),
            }),
        }
    }

    fn to_k8s(self) -> (k: k8s::VolumeProjection) {
        self.into_k8s()
    }
}

/// One file of a downward API volume.
#[derive(Clone, Debug)]
pub enum DownwardApiItem {
    FieldRef { path: String, field_path: String },
    ResourceFieldRef { path: String, container_name: String, resource: String },
}

impl DownwardApiItem {
    /// The API file: a pod field or a container resource at `path`.
    pub fn into_k8s(self) -> (k: k8s::DownwardAPIVolumeFile)
        ensures
            self.renders_as(k),
    {
        match self {
            DownwardApiItem::FieldRef { path, field_path } => k8s::DownwardAPIVolumeFile {
                path,
                field_ref: Some(k8s::ObjectFieldSelector { field_path, api_version: None }),
                resource_field_ref: None,
            },
            DownwardApiItem::ResourceFieldRef { path, container_name, resource } => {
                k8s::DownwardAPIVolumeFile {
                    path,
                    field_ref: None,
                    resource_field_ref: Some(
                        k8s::ResourceFieldSelector { container_name: Some(container_name), resource },
                    ),
                }
            },
        }
    }
}

impl ToK8s for DownwardApiItem {
    type K8s = k8s::DownwardAPIVolumeFile;

    open spec fn renders_as(self, k: k8s::DownwardAPIVolumeFile) -> bool {
        match self {
            DownwardApiItem::FieldRef { path, field_path } => k == (k8s::DownwardAPIVolumeFile {
                path,
                field_ref: Some(k8s::ObjectFieldSelector { field_path, api_version: None }),
                resource_field_ref: None,
            }),
            DownwardApiItem::ResourceFieldRef { path, container_name, resource } => k == (
            k8s::DownwardAPIVolumeFile {
                path,
                field_ref: None,
                resource_field_ref: Some(
                    k8s::ResourceFieldSelector { container_name: Some(container_name), resource },
                ),
            }),
        }
    }

    fn to_k8s(self) -> (k: k8s::DownwardAPIVolumeFile) {
        self.into_k8s()
    }
}

} // verus!
