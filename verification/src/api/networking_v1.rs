//! Networking objects (`networking/v1`).
use crate::api::meta::{LabelSelector, ObjectMeta};
use vstd::prelude::*;

verus! {

/// A backend service port given by number.
#[derive(Clone, Debug)]
pub struct ServiceBackendPort {
    pub number: Option<i32>,
}

#[derive(Clone, Debug)]
pub struct IngressServiceBackend {
    pub name: String,
    pub port: Option<ServiceBackendPort>,
}

#[derive(Clone, Debug)]
pub struct IngressBackend {
    pub service: Option<IngressServiceBackend>,
}

#[derive(Clone, Debug)]
pub struct HTTPIngressPath {
    pub path: Option<String>,
    pub path_type: String,
    pub backend: IngressBackend,
}

#[derive(Clone, Debug)]
pub struct HTTPIngressRuleValue {
    pub paths: Vec<HTTPIngressPath>,
}

#[derive(Clone, Debug)]
pub struct IngressRule {
    pub host: Option<String>,
    pub http: Option<HTTPIngressRuleValue>,
}

#[derive(Clone, Debug)]
pub struct IngressTLS {
    pub hosts: Option<Vec<String>>,
    pub secret_name: Option<String>,
}

#[derive(Clone, Debug)]
pub struct IngressSpec {
    pub ingress_class_name: Option<String>,
    pub rules: Option<Vec<IngressRule>>,
    pub tls: Option<Vec<IngressTLS>>,
}

#[derive(Clone, Debug)]
pub struct Ingress {
    pub metadata: ObjectMeta,
    pub spec: Option<IngressSpec>,
}

#[derive(Clone, Debug)]
pub struct IPBlock {
    pub cidr: String,
    pub except: Option<Vec<String>>,
}

#[derive(Clone, Debug)]
pub struct NetworkPolicyPeer {
    pub pod_selector: Option<LabelSelector>,
    pub namespace_selector: Option<LabelSelector>,
    pub ip_block: Option<IPBlock>,
}

/// A numbered port, with its protocol when one is given.
#[derive(Clone, Debug)]
pub struct NetworkPolicyPort {
    pub port: Option<i32>,
    pub protocol: Option<String>,
}

#[derive(Clone, Debug)]
pub struct NetworkPolicyIngressRule {
    pub from: Option<Vec<NetworkPolicyPeer>>,
    pub ports: Option<Vec<NetworkPolicyPort>>,
}

#[derive(Clone, Debug)]
pub struct NetworkPolicyEgressRule {
    pub to: Option<Vec<NetworkPolicyPeer>>,
    pub ports: Option<Vec<NetworkPolicyPort>>,
}

#[derive(Clone, Debug)]
pub struct NetworkPolicySpec {
    pub pod_selector: Option<LabelSelector>,
    pub policy_types: Option<Vec<String>>,
    pub ingress: Option<Vec<NetworkPolicyIngressRule>>,
    pub egress: Option<Vec<NetworkPolicyEgressRule>>,
}

#[derive(Clone, Debug)]
pub struct NetworkPolicy {
    pub metadata: ObjectMeta,
    pub spec: Option<NetworkPolicySpec>,
}

} // verus!
