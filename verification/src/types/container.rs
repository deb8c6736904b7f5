//! Containers and their parts: ports, environment, resources, mounts,
//! probes and security settings.
use crate::api::core_v1 as k8s;
use crate::kvmap::StringMap;
use crate::text::{text, texts};
use crate::types::render::{
    nonempty, nonempty_map, pushed, render_list, render_opt, renders_list, renders_opt,
    some_if_nonempty, some_if_nonempty_map, some_text, texts_match, ToK8s,
};
use vstd::prelude::*;

verus! {

/// A container of a pod.
#[derive(Clone, Debug)]
pub struct Container {
    pub name: String,
    pub image: String,
    pub image_pull_policy: Option<String>,
    pub command: Vec<String>,
    pub args: Vec<String>,
    pub working_dir: Option<String>,
    pub ports: Vec<ContainerPort>,
    pub env: Vec<EnvVar>,
    pub env_from: Vec<EnvFromSource>,
    pub resources: Option<Resources>,
    pub volume_mounts: Vec<VolumeMount>,
    pub liveness_probe: Option<Probe>,
    pub readiness_probe: Option<Probe>,
    pub startup_probe: Option<Probe>,
    pub security_context: Option<SecurityContext>,
}

impl Container {
    /// A container named `name`, with no image yet and nothing else set.
    pub fn new(name: &str) -> (c: Self)
        ensures
            c.name@ == name@,
            c.image@ == Seq::<char>::empty(),
            c.image_pull_policy is None,
            c.command@.len() == 0,
            c.args@.len() == 0,
            c.working_dir is None,
            c.ports@.len() == 0,
            c.env@.len() == 0,
            c.env_from@.len() == 0,
            c.resources is None,
            c.volume_mounts@.len() == 0,
            c.liveness_probe is None,
            c.readiness_probe is None,
            c.startup_probe is None,
            c.security_context is None,
    {
        Container {
            name: text(name),
            image: String::new(),
            image_pull_policy: None,
            command: Vec::new(),
            args: Vec::new(),
            working_dir: None,
            ports: Vec::new(),
            env: Vec::new(),
            env_from: Vec::new(),
            resources: None,
            volume_mounts: Vec::new(),
            liveness_probe: None,
            readiness_probe: None,
            startup_probe: None,
            security_context: None,
        }
    }

    /// Sets the image the container runs.
    pub fn image(self, image: &str) -> (c: Self)
        ensures
            c.image@ == image@,
            c == (Container { image: c.image, ..self }),
    {
        Container { image: text(image), ..self }
    }

    /// Sets the image pull policy.
    pub fn image_pull_policy(self, policy: &str) -> (c: Self)
        ensures
            some_text(c.image_pull_policy, policy@),
            c == (Container { image_pull_policy: c.image_pull_policy, ..self }),
    {
        Container { image_pull_policy: Some(text(policy)), ..self }
    }

    /// Replaces the command.
    pub fn command(self, cmd: Vec<&str>) -> (c: Self)
        ensures
            texts_match(c.command@, cmd@),
            c == (Container { command: c.command, ..self }),
    {
        Container { command: texts(cmd), ..self }
    }

    /// Replaces the arguments.
    pub fn args(self, args: Vec<&str>) -> (c: Self)
        ensures
            texts_match(c.args@, args@),
            c == (Container { args: c.args, ..self }),
    {
        Container { args: texts(args), ..self }
    }

    /// Sets the working directory.
    pub fn working_dir(self, dir: &str) -> (c: Self)
        ensures
            some_text(c.working_dir, dir@),
            c == (Container { working_dir: c.working_dir, ..self }),
    {
        Container { working_dir: Some(text(dir)), ..self }
    }

    /// Adds an unnamed port.
    pub fn port(self, port: i32) -> (c: Self)
        ensures
            c.ports@ == self.ports@.push(ContainerPort { container_port: port, name: None, protocol: None }),
            c == (Container { ports: c.ports, ..self }),
    {
        let mut ports = self.ports;
        ports.push(ContainerPort { container_port: port, name: None, protocol: None });
        Container { ports, ..self }
    }

    /// Adds a named port.
    pub fn named_port(self, name: &str, port: i32) -> (c: Self)
        ensures
            pushed(self.ports@, c.ports@),
            c.ports@.last().container_port == port,
            some_text(c.ports@.last().name, name@),
            c.ports@.last().protocol is None,
            c == (Container { ports: c.ports, ..self }),
    {
        let mut ports = self.ports;
        ports.push(ContainerPort { container_port: port, name: Some(text(name)), protocol: None });
        Container { ports, ..self }
    }

    /// Adds a variable with a literal value.
    pub fn env(self, key: &str, value: &str) -> (c: Self)
        ensures
            pushed(self.env@, c.env@),
            c.env@.last() matches EnvVar::Value { name, value: v } && name@ == key@ && v@ == value@,
            c == (Container { env: c.env, ..self }),
    {
        let mut env = self.env;
        env.push(EnvVar::Value { name: text(key), value: text(value) });
        Container { env, ..self }
    }

    /// Adds a variable read from key `key` of secret `secret_name`.
    pub fn env_from_secret(self, name: &str, secret_name: &str, key: &str) -> (c: Self)
        ensures
            pushed(self.env@, c.env@),
            c.env@.last() matches EnvVar::SecretRef { name: n, secret_name: s, key: k } && n@
                == name@ && s@ == secret_name@ && k@ == key@,
            c == (Container { env: c.env, ..self }),
    {
        let mut env = self.env;
        env.push(
            EnvVar::SecretRef { name: text(name), secret_name: text(secret_name), key: text(key) },
        );
        Container { env, ..self }
    }

    /// Adds a variable read from key `key` of config map `configmap_name`.
    pub fn env_from_configmap(self, name: &str, configmap_name: &str, key: &str) -> (c: Self)
        ensures
            pushed(self.env@, c.env@),
            c.env@.last() matches EnvVar::ConfigMapRef { name: n, configmap_name: m, key: k } && n@
                == name@ && m@ == configmap_name@ && k@ == key@,
            c == (Container { env: c.env, ..self }),
    {
        let mut env = self.env;
        env.push(
            EnvVar::ConfigMapRef {
                name: text(name),
                configmap_name: text(configmap_name),
                key: text(key),
            },
        );
        Container { env, ..self }
    }

    /// Adds a variable read from a field of the pod.
    pub fn env_from_field(self, name: &str, field_path: &str) -> (c: Self)
        ensures
            pushed(self.env@, c.env@),
            c.env@.last() matches EnvVar::FieldRef { name: n, field_path: f } && n@ == name@ && f@
                == field_path@,
            c == (Container { env: c.env, ..self }),
    {
        let mut env = self.env;
        env.push(EnvVar::FieldRef { name: text(name), field_path: text(field_path) });
        Container { env, ..self }
    }

    /// Adds every key of secret `secret_name` as a variable.
    pub fn env_all_from_secret(self, secret_name: &str) -> (c: Self)
        ensures
            pushed(self.env_from@, c.env_from@),
            c.env_from@.last() matches EnvFromSource::Secret(s) && s@ == secret_name@,
            c == (Container { env_from: c.env_from, ..self }),
    {
        let mut env_from = self.env_from;
        env_from.push(EnvFromSource::Secret(text(secret_name)));
        Container { env_from, ..self }
    }

    /// Adds every key of config map `configmap_name` as a variable.
    pub fn env_all_from_configmap(self, configmap_name: &str) -> (c: Self)
        ensures
            pushed(self.env_from@, c.env_from@),
            c.env_from@.last() matches EnvFromSource::ConfigMap(m) && m@ == configmap_name@,
            c == (Container { env_from: c.env_from, ..self }),
    {
        let mut env_from = self.env_from;
        env_from.push(EnvFromSource::ConfigMap(text(configmap_name)));
        Container { env_from, ..self }
    }

    /// Sets the resource requests and limits.
    pub fn resources(self, resources: Resources) -> (c: Self)
        ensures
            c == (Container { resources: Some(resources), ..self }),
    {
        Container { resources: Some(resources), ..self }
    }

    /// Mounts volume `name` read-write at `mount_path`.
    pub fn volume_mount(self, name: &str, mount_path: &str) -> (c: Self)
        ensures
            pushed(self.volume_mounts@, c.volume_mounts@),
            c.volume_mounts@.last().name@ == name@,
            c.volume_mounts@.last().mount_path@ == mount_path@,
            c.volume_mounts@.last().sub_path is None,
            !c.volume_mounts@.last().read_only,
            c == (Container { volume_mounts: c.volume_mounts, ..self }),
    {
        let mut volume_mounts = self.volume_mounts;
        volume_mounts.push(
            VolumeMount {
                name: text(name),
                mount_path: text(mount_path),
                sub_path: None,
                read_only: false,
            },
        );
        Container { volume_mounts, ..self }
    }

    /// Mounts volume `name` read-only at `mount_path`.
    pub fn volume_mount_readonly(self, name: &str, mount_path: &str) -> (c: Self)
        ensures
            pushed(self.volume_mounts@, c.volume_mounts@),
            c.volume_mounts@.last().name@ == name@,
            c.volume_mounts@.last().mount_path@ == mount_path@,
            c.volume_mounts@.last().sub_path is None,
            c.volume_mounts@.last().read_only,
            c == (Container { volume_mounts: c.volume_mounts, ..self }),
    {
        let mut volume_mounts = self.volume_mounts;
        volume_mounts.push(
            VolumeMount {
                name: text(name),
                mount_path: text(mount_path),
                sub_path: None,
                read_only: true,
            },
        );
        Container { volume_mounts, ..self }
    }

    /// Sets the liveness probe.
    pub fn liveness_probe(self, probe: Probe) -> (c: Self)
        ensures
            c == (Container { liveness_probe: Some(probe), ..self }),
    {
        Container { liveness_probe: Some(probe), ..self }
    }

    /// Sets the readiness probe.
    pub fn readiness_probe(self, probe: Probe) -> (c: Self)
        ensures
            c == (Container { readiness_probe: Some(probe), ..self }),
    {
        Container { readiness_probe: Some(probe), ..self }
    }

    /// Sets the startup probe.
    pub fn startup_probe(self, probe: Probe) -> (c: Self)
        ensures
            c == (Container { startup_probe: Some(probe), ..self }),
    {
        Container { startup_probe: Some(probe), ..self }
    }

    /// Sets the security context.
    pub fn security_context(self, ctx: SecurityContext) -> (c: Self)
        ensures
            c == (Container { security_context: Some(ctx), ..self }),
    {
        Container { security_context: Some(ctx), ..self }
    }

    /// The API container: the image is always given, and empty lists are
    /// left out.
    pub fn into_k8s(self) -> (k: k8s::Container)
        ensures
            self.renders_as(k),
    {
        k8s::Container {
            name: self.name,
            image: Some(self.image),
            image_pull_policy: self.image_pull_policy,
            command: some_if_nonempty(self.command),
            args: some_if_nonempty(self.args),
            working_dir: self.working_dir,
            ports: render_list(self.ports),
            env: render_list(self.env),
            env_from: render_list(self.env_from),
            resources: render_opt(self.resources),
            volume_mounts: render_list(self.volume_mounts),
            liveness_probe: render_opt(self.liveness_probe),
            readiness_probe: render_opt(self.readiness_probe),
            startup_probe: render_opt(self.startup_probe),
            security_context: render_opt(self.security_context),
        }
    }
}

impl ToK8s for Container {
    type K8s = k8s::Container;

    open spec fn renders_as(self, k: k8s::Container) -> bool {
        &&& k.name == self.name
        &&& k.image == Some(self.image)
        &&& k.image_pull_policy == self.image_pull_policy
        &&& k.command == nonempty(self.command)
        &&& k.args == nonempty(self.args)
        &&& k.working_dir == self.working_dir
        &&& renders_list(self.ports@, k.ports)
        &&& renders_list(self.env@, k.env)
        &&& renders_list(self.env_from@, k.env_from)
        &&& renders_opt(self.resources, k.resources)
        &&& renders_list(self.volume_mounts@, k.volume_mounts)
        &&& renders_opt(self.liveness_probe, k.liveness_probe)
        &&& renders_opt(self.readiness_probe, k.readiness_probe)
        &&& renders_opt(self.startup_probe, k.startup_probe)
        &&& renders_opt(self.security_context, k.security_context)
    }

    fn to_k8s(self) -> (k: k8s::Container) {
        self.into_k8s()
    }
}

/// Every probe set on a container builder is rendered in the container,
/// as that probe renders on its own, and a probe left unset stays absent;
/// the same holds of the resources and the security context.
pub proof fn law_container_keeps_probes(c: Container, k: k8s::Container)
    requires
        c.renders_as(k),
    ensures
        c.liveness_probe is None <==> k.liveness_probe is None,
        c.liveness_probe matches Some(p) ==> k.liveness_probe matches Some(q) && p.renders_as(q),
        c.readiness_probe is None <==> k.readiness_probe is None,
        c.readiness_probe matches Some(p) ==> k.readiness_probe matches Some(q) && p.renders_as(q),
        c.startup_probe is None <==> k.startup_probe is None,
        c.startup_probe matches Some(p) ==> k.startup_probe matches Some(q) && p.renders_as(q),
        c.resources is None <==> k.resources is None,
        c.resources matches Some(r) ==> k.resources matches Some(q) && r.renders_as(q),
        c.security_context is None <==> k.security_context is None,
        c.security_context matches Some(x) ==> k.security_context matches Some(q) && x.renders_as(q),
{
}

/// A port a container listens on.
#[derive(Clone, Debug)]
pub struct ContainerPort {
    pub container_port: i32,
    pub name: Option<String>,
    pub protocol: Option<String>,
}

impl ContainerPort {
    /// The API port, with the same number, name and protocol.
    pub fn into_k8s(self) -> (k: k8s::ContainerPort)
        ensures
            self.renders_as(k),
    {
        k8s::ContainerPort {
            container_port: self.container_port,
            name: self.name,
            protocol: self.protocol,
        }
    }
}

impl ToK8s for ContainerPort {
    type K8s = k8s::ContainerPort;

    open spec fn renders_as(self, k: k8s::ContainerPort) -> bool {
        k == (k8s::ContainerPort {
            container_port: self.container_port,
            name: self.name,
            protocol: self.protocol,
        })
    }

    fn to_k8s(self) -> (k: k8s::ContainerPort) {
        self.into_k8s()
    }
}

/// An environment variable of a container.
#[derive(Clone, Debug)]
pub enum EnvVar {
    Value { name: String, value: String },
    SecretRef { name: String, secret_name: String, key: String },
    ConfigMapRef { name: String, configmap_name: String, key: String },
    FieldRef { name: String, field_path: String },
}

impl EnvVar {
    /// The API variable: a literal value, or a value taken from a secret
    /// key, a config map key or a pod field.
    pub fn into_k8s(self) -> (k: k8s::EnvVar)
        ensures
            self.renders_as(k),
    {
        match self {
            EnvVar::Value { name, value } => k8s::EnvVar {
                name,
                value: Some(value),
                value_from: None,
            },
            EnvVar::SecretRef { name, secret_name, key } => k8s::EnvVar {
                name,
                value: None,
                value_from: Some(
                    k8s::EnvVarSource {
                        secret_key_ref: Some(
                            k8s::SecretKeySelector { name: secret_name, key, optional: None },
                        ),
                        config_map_key_ref: None,
                        field_ref: None,
                    },
                ),
            },
            EnvVar::ConfigMapRef { name, configmap_name, key } => k8s::EnvVar {
                name,
                value: None,
                value_from: Some(
                    k8s::EnvVarSource {
                        secret_key_ref: None,
                        config_map_key_ref: Some(
                            k8s::ConfigMapKeySelector { name: configmap_name, key, optional: None },
                        ),
                        field_ref: None,
                    },
                ),
            },
            EnvVar::FieldRef { name, field_path } => k8s::EnvVar {
                name,
                value: None,
                value_from: Some(
                    k8s::EnvVarSource {
                        secret_key_ref: None,
                        config_map_key_ref: None,
                        field_ref: Some(k8s::ObjectFieldSelector { field_path, api_version: None }),
                    },
                ),
            },
        }
    }
}

impl ToK8s for EnvVar {
    type K8s = k8s::EnvVar;

    open spec fn renders_as(self, k: k8s::EnvVar) -> bool {
        match self {
            EnvVar::Value { name, value } => k == (k8s::EnvVar {
                name,
                value: Some(value),
                value_from: None,
            }),
            EnvVar::SecretRef { name, secret_name, key } => k == (k8s::EnvVar {
                name,
                value: None,
                value_from: Some(
                    k8s::EnvVarSource {
                        secret_key_ref: Some(
                            k8s::SecretKeySelector { name: secret_name, key, optional: None },
                        ),
                        config_map_key_ref: None,
                        field_ref: None,
                    },
                ),
            }),
            EnvVar::ConfigMapRef { name, configmap_name, key } => k == (k8s::EnvVar {
                name,
                value: None,
                value_from: Some(
                    k8s::EnvVarSource {
                        secret_key_ref: None,
                        config_map_key_ref: Some(
                            k8s::ConfigMapKeySelector { name: configmap_name, key, optional: None },
                        ),
                        field_ref: None,
                    },
                ),
            }),
            EnvVar::FieldRef { name, field_path } => k == (k8s::EnvVar {
                name,
                value: None,
                value_from: Some(
                    k8s::EnvVarSource {
                        secret_key_ref: None,
                        config_map_key_ref: None,
                        field_ref: Some(k8s::ObjectFieldSelector { field_path, api_version: None }),
                    },
                ),
            }),
        }
    }

    fn to_k8s(self) -> (k: k8s::EnvVar) {
        self.into_k8s()
    }
}

/// A secret or config map whose keys all become variables.
#[derive(Clone, Debug)]
pub enum EnvFromSource {
    Secret(String),
    ConfigMap(String),
}

impl EnvFromSource {
    /// The API source naming the secret or the config map.
    pub fn into_k8s(self) -> (k: k8s::EnvFromSource)
        ensures
            self.renders_as(k),
    {
        match self {
            EnvFromSource::Secret(name) => k8s::EnvFromSource {
                secret_ref: Some(k8s::SecretEnvSource { name, optional: None }),
                config_map_ref: None,
            },
            EnvFromSource::ConfigMap(name) => k8s::EnvFromSource {
                secret_ref: None,
                config_map_ref: Some(k8s::ConfigMapEnvSource { name, optional: None }),
            },
        }
    }
}

impl ToK8s for EnvFromSource {
    type K8s = k8s::EnvFromSource;

    open spec fn renders_as(self, k: k8s::EnvFromSource) -> bool {
        match self {
            EnvFromSource::Secret(name) => k == (k8s::EnvFromSource {
                secret_ref: Some(k8s::SecretEnvSource { name, optional: None }),
                config_map_ref: None,
            }),
            EnvFromSource::ConfigMap(name) => k == (k8s::EnvFromSource {
                secret_ref: None,
                config_map_ref: Some(k8s::ConfigMapEnvSource { name, optional: None }),
            }),
        }
    }

    fn to_k8s(self) -> (k: k8s::EnvFromSource) {
        self.into_k8s()
    }
}

/// Compute resource requests and limits, by resource name.
#[derive(Clone, Debug)]
pub struct Resources {
    pub requests: StringMap<String>,
    pub limits: StringMap<String>,
}

impl Resources {
    /// No requests and no limits.
    pub fn new() -> (r: Self)
        ensures
            r.requests@ == Map::<Seq<char>, Seq<char>>::empty(),
            r.limits@ == Map::<Seq<char>, Seq<char>>::empty(),
    {
        Resources { requests: StringMap::new(), limits: StringMap::new() }
    }

    /// Requests `cpu` of CPU.
    pub fn cpu_request(self, cpu: &str) -> (r: Self)
        ensures
            r.requests@ == self.requests@.insert("cpu"@, cpu@),
            r.limits == self.limits,
    {
        Resources { requests: self.requests.insert(text("cpu"), text(cpu)), limits: self.limits }
    }

    /// Limits CPU to `cpu`.
    pub fn cpu_limit(self, cpu: &str) -> (r: Self)
        ensures
            r.requests == self.requests,
            r.limits@ == self.limits@.insert("cpu"@, cpu@),
    {
        Resources { requests: self.requests, limits: self.limits.insert(text("cpu"), text(cpu)) }
    }

    /// Requests `memory` of memory.
    pub fn memory_request(self, memory: &str) -> (r: Self)
        ensures
            r.requests@ == self.requests@.insert("memory"@, memory@),
            r.limits == self.limits,
    {
        Resources {
            requests: self.requests.insert(text("memory"), text(memory)),
            limits: self.limits,
        }
    }

    /// Limits memory to `memory`.
    pub fn memory_limit(self, memory: &str) -> (r: Self)
        ensures
            r.requests == self.requests,
            r.limits@ == self.limits@.insert("memory"@, memory@),
    {
        Resources {
            requests: self.requests,
            limits: self.limits.insert(text("memory"), text(memory)),
        }
    }

    /// Requests `request` and limits to `limit` of CPU.
    pub fn cpu(self, request: &str, limit: &str) -> (r: Self)
        ensures
            r.requests@ == self.requests@.insert("cpu"@, request@),
            r.limits@ == self.limits@.insert("cpu"@, limit@),
    {
        self.cpu_request(request).cpu_limit(limit)
    }

    /// Requests `request` and limits to `limit` of memory.
    pub fn memory(self, request: &str, limit: &str) -> (r: Self)
        ensures
            r.requests@ == self.requests@.insert("memory"@, request@),
            r.limits@ == self.limits@.insert("memory"@, limit@),
    {
        self.memory_request(request).memory_limit(limit)
    }

    /// The API requirements; an empty map is left out.
    pub fn into_k8s(self) -> (k: k8s::ResourceRequirements)
        ensures
            self.renders_as(k),
    {
        k8s::ResourceRequirements {
            requests: some_if_nonempty_map(self.requests),
            limits: some_if_nonempty_map(self.limits),
        }
    }
}

impl Default for Resources {
    fn default() -> (r: Self)
        ensures
            r.requests@ == Map::<Seq<char>, Seq<char>>::empty(),
            r.limits@ == Map::<Seq<char>, Seq<char>>::empty(),
    {
        Resources::new()
    }
}

impl ToK8s for Resources {
    type K8s = k8s::ResourceRequirements;

    open spec fn renders_as(self, k: k8s::ResourceRequirements) -> bool {
        k == (k8s::ResourceRequirements {
            requests: nonempty_map(self.requests),
            limits: nonempty_map(self.limits),
        })
    }

    fn to_k8s(self) -> (k: k8s::ResourceRequirements) {
        self.into_k8s()
    }
}

/// A volume mounted into a container.
#[derive(Clone, Debug)]
pub struct VolumeMount {
    pub name: String,
    pub mount_path: String,
    pub sub_path: Option<String>,
    pub read_only: bool,
}

impl VolumeMount {
    /// The API mount; the read-only flag is always given.
    pub fn into_k8s(self) -> (k: k8s::VolumeMount)
        ensures
            self.renders_as(k),
    {
        k8s::VolumeMount {
            name: self.name,
            mount_path: self.mount_path,
            sub_path: self.sub_path,
            read_only: Some(self.read_only),
        }
    }
}

impl ToK8s for VolumeMount {
    type K8s = k8s::VolumeMount;

    open spec fn renders_as(self, k: k8s::VolumeMount) -> bool {
        k == (k8s::VolumeMount {
            name: self.name,
            mount_path: self.mount_path,
            sub_path: self.sub_path,
            read_only: Some(self.read_only),
        })
    }

    fn to_k8s(self) -> (k: k8s::VolumeMount) {
        self.into_k8s()
    }
}

/// A health check of a container.
#[derive(Clone, Debug)]
pub struct Probe {
    pub action: ProbeAction,
    pub initial_delay_seconds: Option<i32>,
    pub period_seconds: Option<i32>,
    pub timeout_seconds: Option<i32>,
    pub success_threshold: Option<i32>,
    pub failure_threshold: Option<i32>,
}

/// What a probe does.
#[derive(Clone, Debug)]
pub enum ProbeAction {
    Http { path: String, port: i32 },
    Tcp { port: i32 },
    Exec { command: Vec<String> },
    Grpc { port: i32 },
}

/// A probe performing `action`, with no timing or thresholds set.
pub open spec fn plain_probe(p: Probe, action: ProbeAction) -> bool {
    p == (Probe {
        action,
        initial_delay_seconds: None,
        period_seconds: None,
        timeout_seconds: None,
        success_threshold: None,
        failure_threshold: None,
    })
}

impl Probe {
    fn with_action(action: ProbeAction) -> (p: Self)
        ensures
            plain_probe(p, action),
    {
        Probe {
            action,
            initial_delay_seconds: None,
            period_seconds: None,
            timeout_seconds: None,
            success_threshold: None,
            failure_threshold: None,
        }
    }

    /// An HTTP GET of `path` on `port`.
    pub fn http(path: &str, port: i32) -> (p: Self)
        ensures
            p.action matches ProbeAction::Http { path: a, port: b } && a@ == path@ && b == port,
            plain_probe(p, p.action),
    {
        Probe::with_action(ProbeAction::Http { path: text(path), port })
    }

    /// A TCP connect to `port`.
    pub fn tcp(port: i32) -> (p: Self)
        ensures
            plain_probe(p, ProbeAction::Tcp { port }),
    {
        Probe::with_action(ProbeAction::Tcp { port })
    }

    /// Running `command` in the container.
    pub fn exec(command: Vec<&str>) -> (p: Self)
        ensures
            p.action matches ProbeAction::Exec { command: c } && texts_match(c@, command@),
            plain_probe(p, p.action),
    {
        Probe::with_action(ProbeAction::Exec { command: texts(command) })
    }

    /// A gRPC health check on `port`.
    pub fn grpc(port: i32) -> (p: Self)
        ensures
            plain_probe(p, ProbeAction::Grpc { port }),
    {
        Probe::with_action(ProbeAction::Grpc { port })
    }

    /// Sets the delay before the first check.
    pub fn initial_delay(self, seconds: i32) -> (p: Self)
        ensures
            p == (Probe { initial_delay_seconds: Some(seconds), ..self }),
    {
        Probe { initial_delay_seconds: Some(seconds), ..self }
    }

    /// Sets the time between checks.
    pub fn period(self, seconds: i32) -> (p: Self)
        ensures
            p == (Probe { period_seconds: Some(seconds), ..self }),
    {
        Probe { period_seconds: Some(seconds), ..self }
    }

    /// Sets the time a check may take.
    pub fn timeout(self, seconds: i32) -> (p: Self)
        ensures
            p == (Probe { timeout_seconds: Some(seconds), ..self }),
    {
        Probe { timeout_seconds: Some(seconds), ..self }
    }

    /// Sets how many successes in a row count as healthy.
    pub fn success_threshold(self, threshold: i32) -> (p: Self)
        ensures
            p == (Probe { success_threshold: Some(threshold), ..self }),
    {
        Probe { success_threshold: Some(threshold), ..self }
    }

    /// Sets how many failures in a row count as unhealthy.
    pub fn failure_threshold(self, threshold: i32) -> (p: Self)
        ensures
            p == (Probe { failure_threshold: Some(threshold), ..self }),
    {
        Probe { failure_threshold: Some(threshold), ..self }
    }

    /// The API probe: exactly the handler of the probe's action is set,
    /// and the timing and thresholds are carried over.
    pub fn into_k8s(self) -> (k: k8s::Probe)
        ensures
            self.renders_as(k),
    {
        let (http_get, tcp_socket, exec_, grpc) = match self.action {
            ProbeAction::Http { path, port } => (
                Some(k8s::HTTPGetAction { path: Some(path), port }),
                None,
                None,
                None,
            ),
            ProbeAction::Tcp { port } => (None, Some(k8s::TCPSocketAction { port }), None, None),
            ProbeAction::Exec { command } => (
                None,
                None,
                Some(k8s::ExecAction { command: Some(command) }),
                None,
            ),
            ProbeAction::Grpc { port } => (
                None,
                None,
                None,
                Some(k8s::GRPCAction { port, service: None }),
            ),
        };
        k8s::Probe {
            http_get,
            tcp_socket,
            exec_,
            grpc,
            initial_delay_seconds: self.initial_delay_seconds,
            period_seconds: self.period_seconds,
            timeout_seconds: self.timeout_seconds,
            success_threshold: self.success_threshold,
            failure_threshold: self.failure_threshold,
        }
    }
}

/// The handler fields of an API probe for `action`.
pub open spec fn probe_handlers(action: ProbeAction, k: k8s::Probe) -> bool {
    match action {
        ProbeAction::Http { path, port } => {
            &&& k.http_get == Some(k8s::HTTPGetAction { path: Some(path), port })
            &&& k.tcp_socket is None
            &&& k.exec_ is None
            &&& k.grpc is None
        },
        ProbeAction::Tcp { port } => {
            &&& k.http_get is None
            &&& k.tcp_socket == Some(k8s::TCPSocketAction { port })
            &&& k.exec_ is None
            &&& k.grpc is None
        },
        ProbeAction::Exec { command } => {
            &&& k.http_get is None
            &&& k.tcp_socket is None
            &&& k.exec_ == Some(k8s::ExecAction { command: Some(command) })
            &&& k.grpc is None
        },
        ProbeAction::Grpc { port } => {
            &&& k.http_get is None
            &&& k.tcp_socket is None
            &&& k.exec_ is None
            &&& k.grpc == Some(k8s::GRPCAction { port, service: None })
        },
    }
}

impl ToK8s for Probe {
    type K8s = k8s::Probe;

    open spec fn renders_as(self, k: k8s::Probe) -> bool {
        &&& probe_handlers(self.action, k)
        &&& k.initial_delay_seconds == self.initial_delay_seconds
        &&& k.period_seconds == self.period_seconds
        &&& k.timeout_seconds == self.timeout_seconds
        &&& k.success_threshold == self.success_threshold
        &&& k.failure_threshold == self.failure_threshold
    }

    fn to_k8s(self) -> (k: k8s::Probe) {
        self.into_k8s()
    }
}

/// Privilege and identity settings of a container.
#[derive(Clone, Debug)]
pub struct SecurityContext {
    pub run_as_user: Option<i64>,
    pub run_as_group: Option<i64>,
    pub run_as_non_root: Option<bool>,
    pub read_only_root_filesystem: Option<bool>,
    pub privileged: Option<bool>,
    pub allow_privilege_escalation: Option<bool>,
}

impl SecurityContext {
    /// No setting made.
    pub fn new() -> (s: Self)
        ensures
            s == (SecurityContext {
                run_as_user: None,
                run_as_group: None,
                run_as_non_root: None,
                read_only_root_filesystem: None,
                privileged: None,
                allow_privilege_escalation: None,
            }),
    {
        SecurityContext {
            run_as_user: None,
            run_as_group: None,
            run_as_non_root: None,
            read_only_root_filesystem: None,
            privileged: None,
            allow_privilege_escalation: None,
        }
    }

    /// Runs as user `uid`.
    pub fn run_as_user(self, uid: i64) -> (s: Self)
        ensures
            s == (SecurityContext { run_as_user: Some(uid), ..self }),
    {
        SecurityContext { run_as_user: Some(uid), ..self }
    }

    /// Runs as group `gid`.
    pub fn run_as_group(self, gid: i64) -> (s: Self)
        ensures
            s == (SecurityContext { run_as_group: Some(gid), ..self }),
    {
        SecurityContext { run_as_group: Some(gid), ..self }
    }

    /// Requires (or not) a non-root user.
    pub fn run_as_non_root(self, value: bool) -> (s: Self)
        ensures
            s == (SecurityContext { run_as_non_root: Some(value), ..self }),
    {
        SecurityContext { run_as_non_root: Some(value), ..self }
    }

    /// Makes (or not) the root filesystem read-only.
    pub fn read_only_root_filesystem(self, value: bool) -> (s: Self)
        ensures
            s == (SecurityContext { read_only_root_filesystem: Some(value), ..self }),
    {
        SecurityContext { read_only_root_filesystem: Some(value), ..self }
    }

    /// Runs (or not) privileged.
    pub fn privileged(self, value: bool) -> (s: Self)
        ensures
            s == (SecurityContext { privileged: Some(value), ..self }),
    {
        SecurityContext { privileged: Some(value), ..self }
    }

    /// Allows (or not) gaining privileges.
    pub fn allow_privilege_escalation(self, value: bool) -> (s: Self)
        ensures
            s == (SecurityContext { allow_privilege_escalation: Some(value), ..self }),
    {
        SecurityContext { allow_privilege_escalation: Some(value), ..self }
    }

    /// The API security context with the same settings.
    pub fn into_k8s(self) -> (k: k8s::SecurityContext)
        ensures
            self.renders_as(k),
    {
        k8s::SecurityContext {
            run_as_user: self.run_as_user,
            run_as_group: self.run_as_group,
            run_as_non_root: self.run_as_non_root,
            read_only_root_filesystem: self.read_only_root_filesystem,
            privileged: self.privileged,
            allow_privilege_escalation: self.allow_privilege_escalation,
        }
    }
}

impl Default for SecurityContext {
    fn default() -> (s: Self)
        ensures
            s == (SecurityContext {
                run_as_user: None,
                run_as_group: None,
                run_as_non_root: None,
                read_only_root_filesystem: None,
                privileged: None,
                allow_privilege_escalation: None,
            }),
    {
        SecurityContext::new()
    }
}

impl ToK8s for SecurityContext {
    type K8s = k8s::SecurityContext;

    open spec fn renders_as(self, k: k8s::SecurityContext) -> bool {
        k == (k8s::SecurityContext {
            run_as_user: self.run_as_user,
            run_as_group: self.run_as_group,
            run_as_non_root: self.run_as_non_root,
            read_only_root_filesystem: self.read_only_root_filesystem,
            privileged: self.privileged,
            allow_privilege_escalation: self.allow_privilege_escalation,
        })
    }

    fn to_k8s(self) -> (k: k8s::SecurityContext) {
        self.into_k8s()
    }
}

} // verus!
