//! Core objects: pods, config maps, secrets, services and service
//! accounts.
use crate::api::core_v1 as k8s;
use crate::api::meta::OwnerReference;
use crate::kvmap::StringMap;
use crate::text::text;
use crate::types::container::Container;
use crate::types::metadata::{Annotations, Labels, Selector};
use crate::types::render::{
    all_render, meta_renders, namespaced_meta, nonempty_map, pull_secret_refs, pull_secrets_render, pushed,
    render_all, render_list, renders_list, some_if_nonempty_map, some_text, ChildResource, ToK8s,
};
use crate::types::volume::Volume;
use vstd::prelude::*;

verus! {

/// A pod specification with the given parts; every other part is left
/// unset.
pub open spec fn pod_spec_renders(
    k: k8s::PodSpec,
    containers: Seq<Container>,
    init_containers: Seq<Container>,
    volumes: Seq<Volume>,
    service_account: Option<String>,
    restart_policy: Option<String>,
    node_selector: Option<StringMap<String>>,
    pull_secrets: Seq<String>,
) -> bool {
    &&& all_render(containers, k.containers@)
    &&& renders_list(init_containers, k.init_containers)
    &&& renders_list(volumes, k.volumes)
    &&& k.service_account_name == service_account
    &&& k.restart_policy == restart_policy
    &&& k.node_selector == node_selector
    &&& pull_secrets_render(pull_secrets, k.image_pull_secrets)
}

/// Builds a pod specification from its parts; empty lists are left out.
pub fn pod_spec(
    containers: Vec<Container>,
    init_containers: Vec<Container>,
    volumes: Vec<Volume>,
    service_account: Option<String>,
    restart_policy: Option<String>,
    node_selector: Option<StringMap<String>>,
    pull_secrets: Vec<String>,
) -> (k: k8s::PodSpec)
    ensures
        pod_spec_renders(
            k,
            containers@,
            init_containers@,
            volumes@,
            service_account,
            restart_policy,
            node_selector,
            pull_secrets@,
        ),
{
    k8s::PodSpec {
        containers: render_all(containers),
        init_containers: render_list(init_containers),
        volumes: render_list(volumes),
        service_account_name: service_account,
        restart_policy,
        node_selector,
        image_pull_secrets: pull_secret_refs(pull_secrets),
    }
}

/// A bare pod.
#[derive(Clone, Debug)]
pub struct Pod {
    pub name: String,
    pub labels: Labels,
    pub annotations: Annotations,
    pub containers: Vec<Container>,
    pub init_containers: Vec<Container>,
    pub volumes: Vec<Volume>,
    pub service_account: Option<String>,
    pub restart_policy: Option<String>,
    pub node_selector: StringMap<String>,
}

impl Pod {
    /// A pod named `name` with nothing else set.
    pub fn new(name: &str) -> (p: Self)
        ensures
            p.name@ == name@,
            p.labels@ == Map::<Seq<char>, Seq<char>>::empty(),
            p.annotations@ == Map::<Seq<char>, Seq<char>>::empty(),
            p.containers@.len() == 0,
            p.init_containers@.len() == 0,
            p.volumes@.len() == 0,
            p.service_account is None,
            p.restart_policy is None,
            p.node_selector@ == Map::<Seq<char>, Seq<char>>::empty(),
    {
        Pod {
            name: text(name),
            labels: Labels::new(),
            annotations: Annotations::new(),
            containers: Vec::new(),
            init_containers: Vec::new(),
            volumes: Vec::new(),
            service_account: None,
            restart_policy: None,
            node_selector: StringMap::new(),
        }
    }

    /// Replaces the labels.
    pub fn labels(self, labels: Labels) -> (p: Self)
        ensures
            p == (Pod { labels, ..self }),
    {
        Pod { labels, ..self }
    }

    /// Replaces the annotations.
    pub fn annotations(self, annotations: Annotations) -> (p: Self)
        ensures
            p == (Pod { annotations, ..self }),
    {
        Pod { annotations, ..self }
    }

    /// Adds a container.
    pub fn container(self, container: Container) -> (p: Self)
        ensures
            p.containers@ == self.containers@.push(container),
            p == (Pod { containers: p.containers, ..self }),
    {
        let mut containers = self.containers;
        containers.push(container);
        Pod { containers, ..self }
    }

    /// Adds an init container.
    pub fn init_container(self, container: Container) -> (p: Self)
        ensures
            p.init_containers@ == self.init_containers@.push(container),
            p == (Pod { init_containers: p.init_containers, ..self }),
    {
        let mut init_containers = self.init_containers;
        init_containers.push(container);
        Pod { init_containers, ..self }
    }

    /// Adds a volume.
    pub fn volume(self, volume: Volume) -> (p: Self)
        ensures
            p.volumes@ == self.volumes@.push(volume),
            p == (Pod { volumes: p.volumes, ..self }),
    {
        let mut volumes = self.volumes;
        volumes.push(volume);
        Pod { volumes, ..self }
    }

    /// Runs the pod as service account `name`.
    pub fn service_account(self, name: &str) -> (p: Self)
        ensures
            some_text(p.service_account, name@),
            p == (Pod { service_account: p.service_account, ..self }),
    {
        Pod { service_account: Some(text(name)), ..self }
    }

    /// Restarts containers always.
    pub fn restart_always(self) -> (p: Self)
        ensures
            some_text(p.restart_policy, "Always"@),
            p == (Pod { restart_policy: p.restart_policy, ..self }),
    {
        Pod { restart_policy: Some(text("Always")), ..self }
    }

    /// Never restarts containers.
    pub fn restart_never(self) -> (p: Self)
        ensures
            some_text(p.restart_policy, "Never"@),
            p == (Pod { restart_policy: p.restart_policy, ..self }),
    {
        Pod { restart_policy: Some(text("Never")), ..self }
    }

    /// Restarts containers that fail.
    pub fn restart_on_failure(self) -> (p: Self)
        ensures
            some_text(p.restart_policy, "OnFailure"@),
            p == (Pod { restart_policy: p.restart_policy, ..self }),
    {
        Pod { restart_policy: Some(text("OnFailure")), ..self }
    }

    /// Requires node label `key` to equal `value`.
    pub fn node_selector(self, key: &str, value: &str) -> (p: Self)
        ensures
            p.node_selector@ == self.node_selector@.insert(key@, value@),
            p == (Pod { node_selector: p.node_selector, ..self }),
    {
        Pod { node_selector: self.node_selector.insert(text(key), text(value)), ..self }
    }
}

impl ChildResource for Pod {
    type K8sType = k8s::Pod;

    open spec fn object_name(&self) -> Seq<char> {
        self.name@
    }

    open spec fn renders_in(
        self,
        namespace: Seq<char>,
        owner_ref: Option<OwnerReference>,
        k: k8s::Pod,
    ) -> bool {
        &&& meta_renders(
            k.metadata,
            self.name,
            Some(namespace),
            nonempty_map(self.labels.0),
            nonempty_map(self.annotations.0),
            owner_ref,
        )
        &&& k.spec matches Some(s) && pod_spec_renders(
            s,
            self.containers@,
            self.init_containers@,
            self.volumes@,
            self.service_account,
            self.restart_policy,
            nonempty_map(self.node_selector),
            Seq::empty(),
        )
    }

    fn name(&self) -> (r: &str) {
        self.name.as_str()
    }

    /// The API pod in `namespace`: empty labels, annotations, lists and
    /// node selector are left out.
    fn into_k8s(self, namespace: &str, owner_ref: Option<OwnerReference>) -> (k: k8s::Pod) {
        let metadata = namespaced_meta(
            self.name,
            namespace,
            some_if_nonempty_map(self.labels.0),
            some_if_nonempty_map(self.annotations.0),
            owner_ref,
        );
        let spec = pod_spec(
            self.containers,
            self.init_containers,
            self.volumes,
            self.service_account,
            self.restart_policy,
            some_if_nonempty_map(self.node_selector),
            Vec::new(),
        );
        k8s::Pod { metadata, spec: Some(spec) }
    }
}

/// A config map.
#[derive(Clone, Debug)]
pub struct ConfigMap {
    pub name: String,
    pub labels: Labels,
    pub data: StringMap<String>,
    pub binary_data: StringMap<Vec<u8>>,
}

impl ConfigMap {
    /// An empty config map named `name`.
    pub fn new(name: &str) -> (c: Self)
        ensures
            c.name@ == name@,
            c.labels@ == Map::<Seq<char>, Seq<char>>::empty(),
            c.data@ == Map::<Seq<char>, Seq<char>>::empty(),
            c.binary_data@ == Map::<Seq<char>, Seq<u8>>::empty(),
    {
        ConfigMap {
            name: text(name),
            labels: Labels::new(),
            data: StringMap::new(),
            binary_data: StringMap::new(),
        }
    }

    /// Replaces the labels.
    pub fn labels(self, labels: Labels) -> (c: Self)
        ensures
            c == (ConfigMap { labels, ..self }),
    {
        ConfigMap { labels, ..self }
    }

    /// Sets text entry `key` to `value`.
    pub fn data(self, key: &str, value: &str) -> (c: Self)
        ensures
            c.data@ == self.data@.insert(key@, value@),
            c == (ConfigMap { data: c.data, ..self }),
    {
        ConfigMap { data: self.data.insert(text(key), text(value)), ..self }
    }

    /// Sets binary entry `key` to `value`.
    pub fn binary_data(self, key: &str, value: Vec<u8>) -> (c: Self)
        ensures
            c.binary_data@ == self.binary_data@.insert(key@, value@),
            c == (ConfigMap { binary_data: c.binary_data, ..self }),
    {
        ConfigMap { binary_data: self.binary_data.insert(text(key), value), ..self }
    }

    /// Sets text entry `key` to the content of a file.
    pub fn from_file(self, key: &str, content: &str) -> (c: Self)
        ensures
            c.data@ == self.data@.insert(key@, content@),
            c == (ConfigMap { data: c.data, ..self }),
    {
        ConfigMap { data: self.data.insert(text(key), text(content)), ..self }
    }
}

impl ChildResource for ConfigMap {
    type K8sType = k8s::ConfigMap;

    open spec fn object_name(&self) -> Seq<char> {
        self.name@
    }

    open spec fn renders_in(
        self,
        namespace: Seq<char>,
        owner_ref: Option<OwnerReference>,
        k: k8s::ConfigMap,
    ) -> bool {
        &&& meta_renders(
            k.metadata,
            self.name,
            Some(namespace),
            nonempty_map(self.labels.0),
            None,
            owner_ref,
        )
        &&& k.data == nonempty_map(self.data)
        &&& k.binary_data == nonempty_map(self.binary_data)
    }

    fn name(&self) -> (r: &str) {
        self.name.as_str()
    }

    /// The API config map in `namespace`; empty maps are left out.
    fn into_k8s(self, namespace: &str, owner_ref: Option<OwnerReference>) -> (k: k8s::ConfigMap) {
        k8s::ConfigMap {
            metadata: namespaced_meta(
                self.name,
                namespace,
                some_if_nonempty_map(self.labels.0),
                None,
                owner_ref,
            ),
            data: some_if_nonempty_map(self.data),
            binary_data: some_if_nonempty_map(self.binary_data),
        }
    }
}

/// A secret.
#[derive(Clone, Debug)]
pub struct Secret {
    pub name: String,
    pub labels: Labels,
    pub type_: Option<String>,
    pub data: StringMap<Vec<u8>>,
    pub string_data: StringMap<String>,
}

impl Secret {
    /// An empty secret of no declared type.
    pub fn new(name: &str) -> (s: Self)
        ensures
            s.name@ == name@,
            s.labels@ == Map::<Seq<char>, Seq<char>>::empty(),
            s.type_ is None,
            s.data@ == Map::<Seq<char>, Seq<u8>>::empty(),
            s.string_data@ == Map::<Seq<char>, Seq<char>>::empty(),
    {
        Secret {
            name: text(name),
            labels: Labels::new(),
            type_: None,
            data: StringMap::new(),
            string_data: StringMap::new(),
        }
    }

    /// An empty secret of type `Opaque`.
    pub fn opaque(name: &str) -> (s: Self)
        ensures
            s.name@ == name@,
            s.labels@ == Map::<Seq<char>, Seq<char>>::empty(),
            some_text(s.type_, "Opaque"@),
            s.data@ == Map::<Seq<char>, Seq<u8>>::empty(),
            s.string_data@ == Map::<Seq<char>, Seq<char>>::empty(),
    {
        Self::new(name).type_("Opaque")
    }

    /// An empty secret of the Docker config type.
    pub fn docker_config(name: &str) -> (s: Self)
        ensures
            s.name@ == name@,
            s.labels@ == Map::<Seq<char>, Seq<char>>::empty(),
            some_text(s.type_, "kubernetes.io/dockerconfigjson"@),
            s.data@ == Map::<Seq<char>, Seq<u8>>::empty(),
            s.string_data@ == Map::<Seq<char>, Seq<char>>::empty(),
    {
        Self::new(name).type_("kubernetes.io/dockerconfigjson")
    }

    /// An empty secret of the TLS type.
    pub fn tls(name: &str) -> (s: Self)
        ensures
            s.name@ == name@,
            s.labels@ == Map::<Seq<char>, Seq<char>>::empty(),
            some_text(s.type_, "kubernetes.io/tls"@),
            s.data@ == Map::<Seq<char>, Seq<u8>>::empty(),
            s.string_data@ == Map::<Seq<char>, Seq<char>>::empty(),
    {
        Self::new(name).type_("kubernetes.io/tls")
    }

    /// Replaces the labels.
    pub fn labels(self, labels: Labels) -> (s: Self)
        ensures
            s == (Secret { labels, ..self }),
    {
        Secret { labels, ..self }
    }

    /// Sets the secret type.
    pub fn type_(self, t: &str) -> (s: Self)
        ensures
            some_text(s.type_, t@),
            s == (Secret { type_: s.type_, ..self }),
    {
        Secret { type_: Some(text(t)), ..self }
    }

    /// Sets binary entry `key` to `value`.
    pub fn data(self, key: &str, value: Vec<u8>) -> (s: Self)
        ensures
            s.data@ == self.data@.insert(key@, value@),
            s == (Secret { data: s.data, ..self }),
    {
        Secret { data: self.data.insert(text(key), value), ..self }
    }

    /// Sets text entry `key` to `value`.
    pub fn string_data(self, key: &str, value: &str) -> (s: Self)
        ensures
            s.string_data@ == self.string_data@.insert(key@, value@),
            s == (Secret { string_data: s.string_data, ..self }),
    {
        Secret { string_data: self.string_data.insert(text(key), text(value)), ..self }
    }
}

impl ChildResource for Secret {
    type K8sType = k8s::Secret;

    open spec fn object_name(&self) -> Seq<char> {
        self.name@
    }

    open spec fn renders_in(
        self,
        namespace: Seq<char>,
        owner_ref: Option<OwnerReference>,
        k: k8s::Secret,
    ) -> bool {
        &&& meta_renders(
            k.metadata,
            self.name,
            Some(namespace),
            nonempty_map(self.labels.0),
            None,
            owner_ref,
        )
        &&& k.type_ == self.type_
        &&& k.data == nonempty_map(self.data)
        &&& k.string_data == nonempty_map(self.string_data)
    }

    fn name(&self) -> (r: &str) {
        self.name.as_str()
    }

    /// The API secret in `namespace`; empty maps are left out.
    fn into_k8s(self, namespace: &str, owner_ref: Option<OwnerReference>) -> (k: k8s::Secret) {
        k8s::Secret {
            metadata: namespaced_meta(
                self.name,
                namespace,
                some_if_nonempty_map(self.labels.0),
                None,
                owner_ref,
            ),
            type_: self.type_,
            data: some_if_nonempty_map(self.data),
            string_data: some_if_nonempty_map(self.string_data),
        }
    }
}

/// The labels `app=<name>` that services and workloads start with.
pub open spec fn app_label(name: Seq<char>) -> Map<Seq<char>, Seq<char>> {
    Map::<Seq<char>, Seq<char>>::empty().insert("app"@, name)
}

/// A service.
#[derive(Clone, Debug)]
pub struct Service {
    pub name: String,
    pub labels: Labels,
    pub selector: Selector,
    pub ports: Vec<ServicePort>,
    pub type_: Option<String>,
    pub cluster_ip: Option<String>,
    pub external_traffic_policy: Option<String>,
}

impl Service {
    /// A service named `name`, labelled and selecting `app=<name>`, with no
    /// ports.
    pub fn new(name: &str) -> (s: Self)
        ensures
            s.name@ == name@,
            s.labels@ == app_label(name@),
            s.selector@ == app_label(name@),
            s.ports@.len() == 0,
            s.type_ is None,
            s.cluster_ip is None,
            s.external_traffic_policy is None,
    {
        Service {
            name: text(name),
            labels: Labels::new().insert("app", name),
            selector: Selector::new().match_labels("app", name),
            ports: Vec::new(),
            type_: None,
            cluster_ip: None,
            external_traffic_policy: None,
        }
    }

    /// Replaces the labels.
    pub fn labels(self, labels: Labels) -> (s: Self)
        ensures
            s == (Service { labels, ..self }),
    {
        Service { labels, ..self }
    }

    /// Replaces the selector.
    pub fn selector(self, selector: Selector) -> (s: Self)
        ensures
            s == (Service { selector, ..self }),
    {
        Service { selector, ..self }
    }

    /// Adds port `port`, forwarded to `target_port`.
    pub fn port(self, port: i32, target_port: i32) -> (s: Self)
        ensures
            s.ports@ == self.ports@.push(
                ServicePort {
                    port,
                    target_port: Some(target_port),
                    name: None,
                    protocol: None,
                    node_port: None,
                },
            ),
            s == (Service { ports: s.ports, ..self }),
    {
        let mut ports = self.ports;
        ports.push(
            ServicePort {
                port,
                target_port: Some(target_port),
                name: None,
                protocol: None,
                node_port: None,
            },
        );
        Service { ports, ..self }
    }

    /// Adds a named port `port` forwarded to `target_port`.
    pub fn named_port(self, name: &str, port: i32, target_port: i32) -> (s: Self)
        ensures
            pushed(self.ports@, s.ports@),
            s.ports@.last().port == port,
            s.ports@.last().target_port == Some(target_port),
            some_text(s.ports@.last().name, name@),
            s.ports@.last().protocol is None,
            s.ports@.last().node_port is None,
            s == (Service { ports: s.ports, ..self }),
    {
        let mut ports = self.ports;
        ports.push(
            ServicePort {
                port,
                target_port: Some(target_port),
                name: Some(text(name)),
                protocol: None,
                node_port: None,
            },
        );
        Service { ports, ..self }
    }

    /// Adds port `port` forwarded to `target_port`.
    pub fn port_with_target(self, port: i32, target_port: i32) -> (s: Self)
        ensures
            s.ports@ == self.ports@.push(
                ServicePort {
                    port,
                    target_port: Some(target_port),
                    name: None,
                    protocol: None,
                    node_port: None,
                },
            ),
            s == (Service { ports: s.ports, ..self }),
    {
        let mut ports = self.ports;
        ports.push(
            ServicePort {
                port,
                target_port: Some(target_port),
                name: None,
                protocol: None,
                node_port: None,
            },
        );
        Service { ports, ..self }
    }

    /// Makes the service of type `ClusterIP`.
    pub fn cluster_ip(self) -> (s: Self)
        ensures
            some_text(s.type_, "ClusterIP"@),
            s == (Service { type_: s.type_, ..self }),
    {
        Service { type_: Some(text("ClusterIP")), ..self }
    }

    /// Makes the service of type `NodePort`.
    pub fn node_port(self) -> (s: Self)
        ensures
            some_text(s.type_, "NodePort"@),
            s == (Service { type_: s.type_, ..self }),
    {
        Service { type_: Some(text("NodePort")), ..self }
    }

    /// Makes the service of type `LoadBalancer`.
    pub fn load_balancer(self) -> (s: Self)
        ensures
            some_text(s.type_, "LoadBalancer"@),
            s == (Service { type_: s.type_, ..self }),
    {
        Service { type_: Some(text("LoadBalancer")), ..self }
    }

    /// Makes the service headless: type `ClusterIP` with cluster IP `None`.
    pub fn headless(self) -> (s: Self)
        ensures
            some_text(s.type_, "ClusterIP"@),
            some_text(s.cluster_ip, "None"@),
            s == (Service { type_: s.type_, cluster_ip: s.cluster_ip, ..self }),
    {
        Service { type_: Some(text("ClusterIP")), cluster_ip: Some(text("None")), ..self }
    }

    /// Routes external traffic to node-local endpoints only.
    pub fn external_traffic_local(self) -> (s: Self)
        ensures
            some_text(s.external_traffic_policy, "Local"@),
            s == (Service { external_traffic_policy: s.external_traffic_policy, ..self }),
    {
        Service { external_traffic_policy: Some(text("Local")), ..self }
    }
}

impl ChildResource for Service {
    type K8sType = k8s::Service;

    open spec fn object_name(&self) -> Seq<char> {
        self.name@
    }

    open spec fn renders_in(
        self,
        namespace: Seq<char>,
        owner_ref: Option<OwnerReference>,
        k: k8s::Service,
    ) -> bool {
        &&& meta_renders(k.metadata, self.name, Some(namespace), Some(self.labels.0), None, owner_ref)
        &&& k.spec matches Some(s) && {
            &&& s.selector == Some(self.selector.0)
            &&& renders_list(self.ports@, s.ports)
            &&& s.type_ == self.type_
            &&& s.cluster_ip == self.cluster_ip
            &&& s.external_traffic_policy == self.external_traffic_policy
        }
    }

    fn name(&self) -> (r: &str) {
        self.name.as_str()
    }

    /// The API service in `namespace`; labels and selector are always
    /// given, an empty port list is left out.
    fn into_k8s(self, namespace: &str, owner_ref: Option<OwnerReference>) -> (k: k8s::Service) {
        k8s::Service {
            metadata: namespaced_meta(self.name, namespace, Some(self.labels.0), None, owner_ref),
            spec: Some(
                k8s::ServiceSpec {
                    selector: Some(self.selector.0),
                    ports: render_list(self.ports),
                    type_: self.type_,
                    cluster_ip: self.cluster_ip,
                    external_traffic_policy: self.external_traffic_policy,
                },
            ),
        }
    }
}

/// A rendered service has the type the builder chose (`LoadBalancer`
/// after `load_balancer`, `NodePort` after `node_port`, `ClusterIP` after
/// `cluster_ip` or `headless`, none when none was chosen) and the cluster
/// IP it set.
pub proof fn law_service_keeps_its_type(
    svc: Service,
    namespace: Seq<char>,
    owner_ref: Option<OwnerReference>,
    k: k8s::Service,
)
    requires
        svc.renders_in(namespace, owner_ref, k),
    ensures
        k.spec matches Some(s) && {
            &&& svc.type_ is None <==> s.type_ is None
            &&& forall|t: Seq<char>| some_text(svc.type_, t) <==> #[trigger] some_text(s.type_, t)
            &&& svc.cluster_ip is None <==> s.cluster_ip is None
            &&& forall|t: Seq<char>|
                some_text(svc.cluster_ip, t) <==> #[trigger] some_text(s.cluster_ip, t)
        },
{
}

/// A port of a service.
#[derive(Clone, Debug)]
pub struct ServicePort {
    pub port: i32,
    pub target_port: Option<i32>,
    pub name: Option<String>,
    pub protocol: Option<String>,
    pub node_port: Option<i32>,
}

impl ServicePort {
    /// The API port with the same settings; the target is a port number.
    pub fn into_k8s(self) -> (k: k8s::ServicePort)
        ensures
            self.renders_as(k),
    {
        k8s::ServicePort {
            port: self.port,
            target_port: self.target_port,
            name: self.name,
            protocol: self.protocol,
            node_port: self.node_port,
        }
    }
}

impl ToK8s for ServicePort {
    type K8s = k8s::ServicePort;

    open spec fn renders_as(self, k: k8s::ServicePort) -> bool {
        k == (k8s::ServicePort {
            port: self.port,
            target_port: self.target_port,
            name: self.name,
            protocol: self.protocol,
            node_port: self.node_port,
        })
    }

    fn to_k8s(self) -> (k: k8s::ServicePort) {
        self.into_k8s()
    }
}

/// A service account.
#[derive(Clone, Debug)]
pub struct ServiceAccount {
    pub name: String,
    pub labels: Labels,
    pub automount_service_account_token: Option<bool>,
    pub image_pull_secrets: Vec<String>,
}

impl ServiceAccount {
    /// A service account named `name` with nothing else set.
    pub fn new(name: &str) -> (s: Self)
        ensures
            s.name@ == name@,
            s.labels@ == Map::<Seq<char>, Seq<char>>::empty(),
            s.automount_service_account_token is None,
            s.image_pull_secrets@.len() == 0,
    {
        ServiceAccount {
            name: text(name),
            labels: Labels::new(),
            automount_service_account_token: None,
            image_pull_secrets: Vec::new(),
        }
    }

    /// Replaces the labels.
    pub fn labels(self, labels: Labels) -> (s: Self)
        ensures
            s == (ServiceAccount { labels, ..self }),
    {
        ServiceAccount { labels, ..self }
    }

    /// Mounts (or not) the account's token into pods.
    pub fn automount_token(self, value: bool) -> (s: Self)
        ensures
            s == (ServiceAccount { automount_service_account_token: Some(value), ..self }),
    {
        ServiceAccount { automount_service_account_token: Some(value), ..self }
    }

    /// Adds image pull secret `name`.
    pub fn image_pull_secret(self, name: &str) -> (s: Self)
        ensures
            pushed(self.image_pull_secrets@, s.image_pull_secrets@),
            s.image_pull_secrets@.last()@ == name@,
            s == (ServiceAccount { image_pull_secrets: s.image_pull_secrets, ..self }),
    {
        let mut image_pull_secrets = self.image_pull_secrets;
        image_pull_secrets.push(text(name));
        ServiceAccount { image_pull_secrets, ..self }
    }
}

impl ChildResource for ServiceAccount {
    type K8sType = k8s::ServiceAccount;

    open spec fn object_name(&self) -> Seq<char> {
        self.name@
    }

    open spec fn renders_in(
        self,
        namespace: Seq<char>,
        owner_ref: Option<OwnerReference>,
        k: k8s::ServiceAccount,
    ) -> bool {
        &&& meta_renders(
            k.metadata,
            self.name,
            Some(namespace),
            nonempty_map(self.labels.0),
            None,
            owner_ref,
        )
        &&& k.automount_service_account_token == self.automount_service_account_token
        &&& pull_secrets_render(self.image_pull_secrets@, k.image_pull_secrets)
    }

    fn name(&self) -> (r: &str) {
        self.name.as_str()
    }

    /// The API service account in `namespace`; empty labels and pull
    /// secrets are left out.
    fn into_k8s(self, namespace: &str, owner_ref: Option<OwnerReference>) -> (k: k8s::ServiceAccount) {
        k8s::ServiceAccount {
            metadata: namespaced_meta(
                self.name,
                namespace,
                some_if_nonempty_map(self.labels.0),
                None,
                owner_ref,
            ),
            automount_service_account_token: self.automount_service_account_token,
            image_pull_secrets: pull_secret_refs(self.image_pull_secrets),
        }
    }
}

} // verus!
