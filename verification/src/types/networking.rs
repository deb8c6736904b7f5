//! Ingresses and network policies.
use crate::api::meta::{LabelSelector, OwnerReference};
use crate::api::networking_v1 as k8s;
use crate::text::{text, texts};
use crate::types::metadata::{Annotations, Labels, Selector};
use crate::types::render::{
    all_render, distinct_texts, has_text, meta_renders, namespaced_meta, nonempty, nonempty_map,
    pushed, render_all, render_list, renders_list, some_if_nonempty, some_if_nonempty_map,
    some_text, texts_match, ChildResource, ToK8s, contains_text,
};
use vstd::prelude::*;

verus! {

/// An ingress.
#[derive(Clone, Debug)]
pub struct Ingress {
    pub name: String,
    pub labels: Labels,
    pub annotations: Annotations,
    pub ingress_class: Option<String>,
    pub rules: Vec<IngressRule>,
    pub tls: Vec<IngressTls>,
}

impl Ingress {
    /// An ingress named `name` with nothing else set.
    pub fn new(name: &str) -> (i: Self)
        ensures
            i.name@ == name@,
            i.labels@ == Map::<Seq<char>, Seq<char>>::empty(),
            i.annotations@ == Map::<Seq<char>, Seq<char>>::empty(),
            i.ingress_class is None,
            i.rules@.len() == 0,
            i.tls@.len() == 0,
    {
        Ingress {
            name: text(name),
            labels: Labels::new(),
            annotations: Annotations::new(),
            ingress_class: None,
            rules: Vec::new(),
            tls: Vec::new(),
        }
    }

    /// Replaces the labels.
    pub fn labels(self, labels: Labels) -> (i: Self)
        ensures
            i == (Ingress { labels, ..self }),
    {
        Ingress { labels, ..self }
    }

    /// Replaces the annotations.
    pub fn annotations(self, annotations: Annotations) -> (i: Self)
        ensures
            i == (Ingress { annotations, ..self }),
    {
        Ingress { annotations, ..self }
    }

    /// Sets annotation `key` to `value`.
    pub fn annotation(self, key: &str, value: &str) -> (i: Self)
        ensures
            i.annotations@ == self.annotations@.insert(key@, value@),
            i == (Ingress { annotations: i.annotations, ..self }),
    {
        Ingress { annotations: self.annotations.insert(key, value), ..self }
    }

    /// Sets the ingress class.
    pub fn ingress_class(self, class: &str) -> (i: Self)
        ensures
            some_text(i.ingress_class, class@),
            i == (Ingress { ingress_class: i.ingress_class, ..self }),
    {
        Ingress { ingress_class: Some(text(class)), ..self }
    }

    /// Adds a routing rule.
    pub fn rule(self, rule: IngressRule) -> (i: Self)
        ensures
            i.rules@ == self.rules@.push(rule),
            i == (Ingress { rules: i.rules, ..self }),
    {
        let mut rules = self.rules;
        rules.push(rule);
        Ingress { rules, ..self }
    }

    /// Serves `hosts` over TLS with the certificate of secret `secret_name`.
    pub fn tls(self, hosts: Vec<&str>, secret_name: &str) -> (i: Self)
        ensures
            pushed(self.tls@, i.tls@),
            texts_match(i.tls@.last().hosts@, hosts@),
            i.tls@.last().secret_name@ == secret_name@,
            i == (Ingress { tls: i.tls, ..self }),
    {
        let mut tls = self.tls;
        tls.push(IngressTls { hosts: texts(hosts), secret_name: text(secret_name) });
        Ingress { tls, ..self }
    }
}

impl ChildResource for Ingress {
    type K8sType = k8s::Ingress;

    open spec fn object_name(&self) -> Seq<char> {
        self.name@
    }

    open spec fn renders_in(
        self,
        namespace: Seq<char>,
        owner_ref: Option<OwnerReference>,
        k: k8s::Ingress,
    ) -> bool {
        &&& meta_renders(
            k.metadata,
            self.name,
            Some(namespace),
            nonempty_map(self.labels.0),
            nonempty_map(self.annotations.0),
            owner_ref,
        )
        &&& k.spec matches Some(s) && {
            &&& s.ingress_class_name == self.ingress_class
            &&& renders_list(self.rules@, s.rules)
            &&& renders_list(self.tls@, s.tls)
        }
    }

    fn name(&self) -> (r: &str) {
        self.name.as_str()
    }

    /// The API ingress in `namespace`; empty labels, annotations, rules
    /// and TLS lists are left out.
    fn into_k8s(self, namespace: &str, owner_ref: Option<OwnerReference>) -> (k: k8s::Ingress) {
        k8s::Ingress {
            metadata: namespaced_meta(
                self.name,
                namespace,
                some_if_nonempty_map(self.labels.0),
                some_if_nonempty_map(self.annotations.0),
                owner_ref,
            ),
            spec: Some(
                k8s::IngressSpec {
                    ingress_class_name: self.ingress_class,
                    rules: render_list(self.rules),
                    tls: render_list(self.tls),
                },
            ),
        }
    }
}

/// A routing rule of an ingress: an optional host and its paths.
#[derive(Clone, Debug)]
pub struct IngressRule {
    pub host: Option<String>,
    pub paths: Vec<IngressPath>,
}

impl IngressRule {
    /// A rule for any host, with no paths.
    pub fn new() -> (r: Self)
        ensures
            r.host is None,
            r.paths@.len() == 0,
    {
        IngressRule { host: None, paths: Vec::new() }
    }

    /// Restricts the rule to `host`.
    pub fn host(self, host: &str) -> (r: Self)
        ensures
            some_text(r.host, host@),
            r.paths == self.paths,
    {
        IngressRule { host: Some(text(host)), paths: self.paths }
    }

    /// Routes requests under prefix `path` to a service port.
    pub fn path(self, path: &str, service_name: &str, service_port: i32) -> (r: Self)
        ensures
            pushed(self.paths@, r.paths@),
            r.paths@.last().path@ == path@,
            r.paths@.last().path_type@ == "Prefix"@,
            r.paths@.last().service_name@ == service_name@,
            r.paths@.last().service_port == service_port,
            r.host == self.host,
    {
        let mut paths = self.paths;
        paths.push(
            IngressPath {
                path: text(path),
                path_type: text("Prefix"),
                service_name: text(service_name),
                service_port,
            },
        );
        IngressRule { host: self.host, paths }
    }

    /// Routes requests for exactly `path` to a service port.
    pub fn exact_path(self, path: &str, service_name: &str, service_port: i32) -> (r: Self)
        ensures
            pushed(self.paths@, r.paths@),
            r.paths@.last().path@ == path@,
            r.paths@.last().path_type@ == "Exact"@,
            r.paths@.last().service_name@ == service_name@,
            r.paths@.last().service_port == service_port,
            r.host == self.host,
    {
        let mut paths = self.paths;
        paths.push(
            IngressPath {
                path: text(path),
                path_type: text("Exact"),
                service_name: text(service_name),
                service_port,
            },
        );
        IngressRule { host: self.host, paths }
    }

    /// The API rule; its path list is always given.
    pub fn into_k8s(self) -> (k: k8s::IngressRule)
        ensures
            self.renders_as(k),
    {
        k8s::IngressRule {
            host: self.host,
            http: Some(k8s::HTTPIngressRuleValue { paths: render_all(self.paths) }),
        }
    }
}

impl Default for IngressRule {
    fn default() -> (r: Self)
        ensures
            r.host is None,
            r.paths@.len() == 0,
    {
        IngressRule::new()
    }
}

impl ToK8s for IngressRule {
    type K8s = k8s::IngressRule;

    open spec fn renders_as(self, k: k8s::IngressRule) -> bool {
        &&& k.host == self.host
        &&& k.http matches Some(h) && all_render(self.paths@, h.paths@)
    }

    fn to_k8s(self) -> (k: k8s::IngressRule) {
        self.into_k8s()
    }
}

/// A path of an ingress rule and the service port it routes to.
#[derive(Clone, Debug)]
pub struct IngressPath {
    pub path: String,
    pub path_type: String,
    pub service_name: String,
    pub service_port: i32,
}

impl IngressPath {
    /// The API path, with a service backend on a numbered port.
    pub fn into_k8s(self) -> (k: k8s::HTTPIngressPath)
        ensures
            self.renders_as(k),
    {
        k8s::HTTPIngressPath {
            path: Some(self.path),
            path_type: self.path_type,
            backend: k8s::IngressBackend {
                service: Some(
                    k8s::IngressServiceBackend {
                        name: self.service_name,
                        port: Some(k8s::ServiceBackendPort { number: Some(self.service_port) }),
                    },
                ),
            },
        }
    }
}

impl ToK8s for IngressPath {
    type K8s = k8s::HTTPIngressPath;

    open spec fn renders_as(self, k: k8s::HTTPIngressPath) -> bool {
        k == (k8s::HTTPIngressPath {
            path: Some(self.path),
            path_type: self.path_type,
            backend: k8s::IngressBackend {
                service: Some(
                    k8s::IngressServiceBackend {
                        name: self.service_name,
                        port: Some(k8s::ServiceBackendPort { number: Some(self.service_port) }),
                    },
                ),
            },
        })
    }

    fn to_k8s(self) -> (k: k8s::HTTPIngressPath) {
        self.into_k8s()
    }
}

/// Hosts served over TLS and the secret holding their certificate.
#[derive(Clone, Debug)]
pub struct IngressTls {
    pub hosts: Vec<String>,
    pub secret_name: String,
}

impl IngressTls {
    /// The API TLS entry; the host list is always given.
    pub fn into_k8s(self) -> (k: k8s::IngressTLS)
        ensures
            self.renders_as(k),
    {
        k8s::IngressTLS { hosts: Some(self.hosts), secret_name: Some(self.secret_name) }
    }
}

impl ToK8s for IngressTls {
    type K8s = k8s::IngressTLS;

    open spec fn renders_as(self, k: k8s::IngressTLS) -> bool {
        k == (k8s::IngressTLS { hosts: Some(self.hosts), secret_name: Some(self.secret_name) })
    }

    fn to_k8s(self) -> (k: k8s::IngressTLS) {
        self.into_k8s()
    }
}

/// A network policy.
#[derive(Clone, Debug)]
pub struct NetworkPolicy {
    pub name: String,
    pub labels: Labels,
    pub pod_selector: Selector,
    pub policy_types: Vec<String>,
    pub ingress: Vec<NetworkPolicyIngress>,
    pub egress: Vec<NetworkPolicyEgress>,
}

/// The policy types after allowing traffic of type `kind`: `kind` is added
/// unless it is already there.
pub open spec fn policy_types_with(before: Seq<String>, after: Seq<String>, kind: Seq<char>) -> bool {
    if has_text(before, kind) {
        after == before
    } else {
        pushed(before, after) && after.last()@ == kind
    }
}

impl NetworkPolicy {
    /// A policy named `name` that selects every pod and sets no rule.
    pub fn new(name: &str) -> (n: Self)
        ensures
            n.name@ == name@,
            n.labels@ == Map::<Seq<char>, Seq<char>>::empty(),
            n.pod_selector@ == Map::<Seq<char>, Seq<char>>::empty(),
            n.policy_types@.len() == 0,
            n.ingress@.len() == 0,
            n.egress@.len() == 0,
    {
        NetworkPolicy {
            name: text(name),
            labels: Labels::new(),
            pod_selector: Selector::new(),
            policy_types: Vec::new(),
            ingress: Vec::new(),
            egress: Vec::new(),
        }
    }

    /// Replaces the labels.
    pub fn labels(self, labels: Labels) -> (n: Self)
        ensures
            n == (NetworkPolicy { labels, ..self }),
    {
        NetworkPolicy { labels, ..self }
    }

    /// Replaces the selector of the pods the policy applies to.
    pub fn pod_selector(self, selector: Selector) -> (n: Self)
        ensures
            n == (NetworkPolicy { pod_selector: selector, ..self }),
    {
        NetworkPolicy { pod_selector: selector, ..self }
    }

    /// Allows the incoming traffic that `rule` describes; the policy type
    /// `Ingress` is added once.
    pub fn allow_ingress(self, rule: NetworkPolicyIngress) -> (n: Self)
        ensures
            policy_types_with(self.policy_types@, n.policy_types@, "Ingress"@),
            distinct_texts(self.policy_types@) ==> distinct_texts(n.policy_types@),
            n.ingress@ == self.ingress@.push(rule),
            n == (NetworkPolicy { policy_types: n.policy_types, ingress: n.ingress, ..self }),
    {
        let mut policy_types = self.policy_types;
        let mut ingress = self.ingress;
        if !contains_text(&policy_types, "Ingress") {
            policy_types.push(text("Ingress"));
        }
        ingress.push(rule);
        NetworkPolicy { policy_types, ingress, ..self }
    }

    /// Allows the outgoing traffic that `rule` describes; the policy type
    /// `Egress` is added once.
    pub fn allow_egress(self, rule: NetworkPolicyEgress) -> (n: Self)
        ensures
            policy_types_with(self.policy_types@, n.policy_types@, "Egress"@),
            distinct_texts(self.policy_types@) ==> distinct_texts(n.policy_types@),
            n.egress@ == self.egress@.push(rule),
            n == (NetworkPolicy { policy_types: n.policy_types, egress: n.egress, ..self }),
    {
        let mut policy_types = self.policy_types;
        let mut egress = self.egress;
        if !contains_text(&policy_types, "Egress") {
            policy_types.push(text("Egress"));
        }
        egress.push(rule);
        NetworkPolicy { policy_types, egress, ..self }
    }

    /// Adds the policy type `Ingress` with no rule, which denies all
    /// incoming traffic.
    pub fn deny_all_ingress(self) -> (n: Self)
        ensures
            pushed(self.policy_types@, n.policy_types@),
            n.policy_types@.last()@ == "Ingress"@,
            n == (NetworkPolicy { policy_types: n.policy_types, ..self }),
    {
        let mut policy_types = self.policy_types;
        policy_types.push(text("Ingress"));
        NetworkPolicy { policy_types, ..self }
    }

    /// Adds the policy type `Egress` with no rule, which denies all
    /// outgoing traffic.
    pub fn deny_all_egress(self) -> (n: Self)
        ensures
            pushed(self.policy_types@, n.policy_types@),
            n.policy_types@.last()@ == "Egress"@,
            n == (NetworkPolicy { policy_types: n.policy_types, ..self }),
    {
        let mut policy_types = self.policy_types;
        policy_types.push(text("Egress"));
        NetworkPolicy { policy_types, ..self }
    }
}

impl ChildResource for NetworkPolicy {
    type K8sType = k8s::NetworkPolicy;

    open spec fn object_name(&self) -> Seq<char> {
        self.name@
    }

    open spec fn renders_in(
        self,
        namespace: Seq<char>,
        owner_ref: Option<OwnerReference>,
        k: k8s::NetworkPolicy,
    ) -> bool {
        &&& meta_renders(
            k.metadata,
            self.name,
            Some(namespace),
            nonempty_map(self.labels.0),
            None,
            owner_ref,
        )
        &&& k.spec matches Some(s) && {
            &&& s.pod_selector == Some(LabelSelector { match_labels: nonempty_map(self.pod_selector.0) })
            &&& s.policy_types == nonempty(self.policy_types)
            &&& renders_list(self.ingress@, s.ingress)
            &&& renders_list(self.egress@, s.egress)
        }
    }

    fn name(&self) -> (r: &str) {
        self.name.as_str()
    }

    /// The API policy in `namespace`; the pod selector is always given
    /// (an empty one selects every pod), empty lists are left out.
    fn into_k8s(self, namespace: &str, owner_ref: Option<OwnerReference>) -> (k: k8s::NetworkPolicy) {
        k8s::NetworkPolicy {
            metadata: namespaced_meta(
                self.name,
                namespace,
                some_if_nonempty_map(self.labels.0),
                None,
                owner_ref,
            ),
            spec: Some(
                k8s::NetworkPolicySpec {
                    pod_selector: Some(
                        LabelSelector { match_labels: some_if_nonempty_map(self.pod_selector.0) },
                    ),
                    policy_types: some_if_nonempty(self.policy_types),
                    ingress: render_list(self.ingress),
                    egress: render_list(self.egress),
                },
            ),
        }
    }
}

/// Incoming traffic allowed by a network policy: from these peers, to
/// these ports.
#[derive(Clone, Debug)]
pub struct NetworkPolicyIngress {
    pub from: Vec<NetworkPolicyPeer>,
    pub ports: Vec<NetworkPolicyPort>,
}

impl NetworkPolicyIngress {
    /// No peer and no port given.
    pub fn new() -> (r: Self)
        ensures
            r.from@.len() == 0,
            r.ports@.len() == 0,
    {
        NetworkPolicyIngress { from: Vec::new(), ports: Vec::new() }
    }

    /// Admits traffic from the pods that `selector` selects.
    pub fn from_pod_selector(self, selector: Selector) -> (r: Self)
        ensures
            r.from@ == self.from@.push(NetworkPolicyPeer::PodSelector(selector)),
            r.ports == self.ports,
    {
        let mut from = self.from;
        from.push(NetworkPolicyPeer::PodSelector(selector));
        NetworkPolicyIngress { from, ports: self.ports }
    }

    /// Admits traffic from the namespaces that `selector` selects.
    pub fn from_namespace_selector(self, selector: Selector) -> (r: Self)
        ensures
            r.from@ == self.from@.push(NetworkPolicyPeer::NamespaceSelector(selector)),
            r.ports == self.ports,
    {
        let mut from = self.from;
        from.push(NetworkPolicyPeer::NamespaceSelector(selector));
        NetworkPolicyIngress { from, ports: self.ports }
    }

    /// Admits traffic from the addresses of `cidr`.
    pub fn from_ip_block(self, cidr: &str) -> (r: Self)
        ensures
            pushed(self.from@, r.from@),
            r.from@.last() matches NetworkPolicyPeer::IpBlock { cidr: c, except } && c@ == cidr@
                && except@.len() == 0,
            r.ports == self.ports,
    {
        let mut from = self.from;
        from.push(NetworkPolicyPeer::IpBlock { cidr: text(cidr), except: Vec::new() });
        NetworkPolicyIngress { from, ports: self.ports }
    }

    /// Admits traffic to `port` over any protocol.
    pub fn port(self, port: i32) -> (r: Self)
        ensures
            r.ports@ == self.ports@.push(NetworkPolicyPort { port, protocol: None }),
            r.from == self.from,
    {
        let mut ports = self.ports;
        ports.push(NetworkPolicyPort { port, protocol: None });
        NetworkPolicyIngress { from: self.from, ports }
    }

    /// Admits TCP traffic to `port`.
    pub fn tcp_port(self, port: i32) -> (r: Self)
        ensures
            pushed(self.ports@, r.ports@),
            r.ports@.last().port == port,
            some_text(r.ports@.last().protocol, "TCP"@),
            r.from == self.from,
    {
        let mut ports = self.ports;
        ports.push(NetworkPolicyPort { port, protocol: Some(text("TCP")) });
        NetworkPolicyIngress { from: self.from, ports }
    }

    /// Admits UDP traffic to `port`.
    pub fn udp_port(self, port: i32) -> (r: Self)
        ensures
            pushed(self.ports@, r.ports@),
            r.ports@.last().port == port,
            some_text(r.ports@.last().protocol, "UDP"@),
            r.from == self.from,
    {
        let mut ports = self.ports;
        ports.push(NetworkPolicyPort { port, protocol: Some(text("UDP")) });
        NetworkPolicyIngress { from: self.from, ports }
    }

    /// The API rule; empty lists are left out.
    pub fn into_k8s(self) -> (k: k8s::NetworkPolicyIngressRule)
        ensures
            self.renders_as(k),
    {
        k8s::NetworkPolicyIngressRule { from: render_list(self.from), ports: render_list(self.ports) }
    }
}

impl Default for NetworkPolicyIngress {
    fn default() -> (r: Self)
        ensures
            r.from@.len() == 0,
            r.ports@.len() == 0,
    {
        NetworkPolicyIngress::new()
    }
}

impl ToK8s for NetworkPolicyIngress {
    type K8s = k8s::NetworkPolicyIngressRule;

    open spec fn renders_as(self, k: k8s::NetworkPolicyIngressRule) -> bool {
        renders_list(self.from@, k.from) && renders_list(self.ports@, k.ports)
    }

    fn to_k8s(self) -> (k: k8s::NetworkPolicyIngressRule) {
        self.into_k8s()
    }
}

/// Outgoing traffic allowed by a network policy: to these peers, on these
/// ports.
#[derive(Clone, Debug)]
pub struct NetworkPolicyEgress {
    pub to: Vec<NetworkPolicyPeer>,
    pub ports: Vec<NetworkPolicyPort>,
}

impl NetworkPolicyEgress {
    /// No peer and no port given.
    pub fn new() -> (r: Self)
        ensures
            r.to@.len() == 0,
            r.ports@.len() == 0,
    {
        NetworkPolicyEgress { to: Vec::new(), ports: Vec::new() }
    }

    /// Allows traffic to the pods that `selector` selects.
    pub fn to_pod_selector(self, selector: Selector) -> (r: Self)
        ensures
            r.to@ == self.to@.push(NetworkPolicyPeer::PodSelector(selector)),
            r.ports == self.ports,
    {
        let mut to = self.to;
        to.push(NetworkPolicyPeer::PodSelector(selector));
        NetworkPolicyEgress { to, ports: self.ports }
    }

    /// Allows traffic to the namespaces that `selector` selects.
    pub fn to_namespace_selector(self, selector: Selector) -> (r: Self)
        ensures
            r.to@ == self.to@.push(NetworkPolicyPeer::NamespaceSelector(selector)),
            r.ports == self.ports,
    {
        let mut to = self.to;
        to.push(NetworkPolicyPeer::NamespaceSelector(selector));
        NetworkPolicyEgress { to, ports: self.ports }
    }

    /// Allows traffic to the addresses of `cidr`.
    pub fn to_ip_block(self, cidr: &str) -> (r: Self)
        ensures
            pushed(self.to@, r.to@),
            r.to@.last() matches NetworkPolicyPeer::IpBlock { cidr: c, except } && c@ == cidr@
                && except@.len() == 0,
            r.ports == self.ports,
    {
        let mut to = self.to;
        to.push(NetworkPolicyPeer::IpBlock { cidr: text(cidr), except: Vec::new() });
        NetworkPolicyEgress { to, ports: self.ports }
    }

    /// Allows traffic on `port` over any protocol.
    pub fn port(self, port: i32) -> (r: Self)
        ensures
            r.ports@ == self.ports@.push(NetworkPolicyPort { port, protocol: None }),
            r.to == self.to,
    {
        let mut ports = self.ports;
        ports.push(NetworkPolicyPort { port, protocol: None });
        NetworkPolicyEgress { to: self.to, ports }
    }

    /// Allows TCP traffic on `port`.
    pub fn tcp_port(self, port: i32) -> (r: Self)
        ensures
            pushed(self.ports@, r.ports@),
            r.ports@.last().port == port,
            some_text(r.ports@.last().protocol, "TCP"@),
            r.to == self.to,
    {
        let mut ports = self.ports;
        ports.push(NetworkPolicyPort { port, protocol: Some(text("TCP")) });
        NetworkPolicyEgress { to: self.to, ports }
    }

    /// Allows UDP traffic on `port`.
    pub fn udp_port(self, port: i32) -> (r: Self)
        ensures
            pushed(self.ports@, r.ports@),
            r.ports@.last().port == port,
            some_text(r.ports@.last().protocol, "UDP"@),
            r.to == self.to,
    {
        let mut ports = self.ports;
        ports.push(NetworkPolicyPort { port, protocol: Some(text("UDP")) });
        NetworkPolicyEgress { to: self.to, ports }
    }

    /// The API rule; empty lists are left out.
    pub fn into_k8s(self) -> (k: k8s::NetworkPolicyEgressRule)
        ensures
            self.renders_as(k),
    {
        k8s::NetworkPolicyEgressRule { to: render_list(self.to), ports: render_list(self.ports) }
    }
}

impl Default for NetworkPolicyEgress {
    fn default() -> (r: Self)
        ensures
            r.to@.len() == 0,
            r.ports@.len() == 0,
    {
        NetworkPolicyEgress::new()
    }
}

impl ToK8s for NetworkPolicyEgress {
    type K8s = k8s::NetworkPolicyEgressRule;

    open spec fn renders_as(self, k: k8s::NetworkPolicyEgressRule) -> bool {
        renders_list(self.to@, k.to) && renders_list(self.ports@, k.ports)
    }

    fn to_k8s(self) -> (k: k8s::NetworkPolicyEgressRule) {
        self.into_k8s()
    }
}

/// A peer of a network policy rule.
#[derive(Clone, Debug)]
pub enum NetworkPolicyPeer {
    PodSelector(Selector),
    NamespaceSelector(Selector),
    IpBlock { cidr: String, except: Vec<String> },
}

impl NetworkPolicyPeer {
    /// The API peer, with exactly the field of its kind set; selectors
    /// always give their labels.
    pub fn into_k8s(self) -> (k: k8s::NetworkPolicyPeer)
        ensures
            self.renders_as(k),
    {
        match self {
            NetworkPolicyPeer::PodSelector(selector) => k8s::NetworkPolicyPeer {
                pod_selector: Some(LabelSelector { match_labels: Some(selector.0) }),
                namespace_selector: None,
                ip_block: None,
            },
            NetworkPolicyPeer::NamespaceSelector(selector) => k8s::NetworkPolicyPeer {
                pod_selector: None,
                namespace_selector: Some(LabelSelector { match_labels: Some(selector.0) }),
                ip_block: None,
            },
            NetworkPolicyPeer::IpBlock { cidr, except } => k8s::NetworkPolicyPeer {
                pod_selector: None,
                namespace_selector: None,
                ip_block: Some(k8s::IPBlock { cidr, except: some_if_nonempty(except) }),
            },
        }
    }
}

impl ToK8s for NetworkPolicyPeer {
    type K8s = k8s::NetworkPolicyPeer;

    open spec fn renders_as(self, k: k8s::NetworkPolicyPeer) -> bool {
        match self {
            NetworkPolicyPeer::PodSelector(selector) => k == (k8s::NetworkPolicyPeer {
                pod_selector: Some(LabelSelector { match_labels: Some(selector.0) }),
                namespace_selector: None,
                ip_block: None,
            }),
            NetworkPolicyPeer::NamespaceSelector(selector) => k == (k8s::NetworkPolicyPeer {
                pod_selector: None,
                namespace_selector: Some(LabelSelector { match_labels: Some(selector.0) }),
                ip_block: None,
            }),
            NetworkPolicyPeer::IpBlock { cidr, except } => k == (k8s::NetworkPolicyPeer {
                pod_selector: None,
                namespace_selector: None,
                ip_block: Some(k8s::IPBlock { cidr, except: nonempty(except) }),
            }),
        }
    }

    fn to_k8s(self) -> (k: k8s::NetworkPolicyPeer) {
        self.into_k8s()
    }
}

/// A port of a network policy rule.
#[derive(Clone, Debug)]
pub struct NetworkPolicyPort {
    pub port: i32,
    pub protocol: Option<String>,
}

impl NetworkPolicyPort {
    /// The API port: the port number and protocol.
    pub fn into_k8s(self) -> (k: k8s::NetworkPolicyPort)
        ensures
            self.renders_as(k),
    {
        k8s::NetworkPolicyPort { port: Some(self.port), protocol: self.protocol }
    }
}

impl ToK8s for NetworkPolicyPort {
    type K8s = k8s::NetworkPolicyPort;

    open spec fn renders_as(self, k: k8s::NetworkPolicyPort) -> bool {
        k == (k8s::NetworkPolicyPort { port: Some(self.port), protocol: self.protocol })
    }

    fn to_k8s(self) -> (k: k8s::NetworkPolicyPort) {
        self.into_k8s()
    }
}

} // verus!
