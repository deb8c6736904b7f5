use k8s_operator::api::meta::OwnerReference;
use k8s_operator::types::container::{Container, Probe, Resources, SecurityContext};
use k8s_operator::types::core_objects::{ConfigMap, Secret, Service};
use k8s_operator::types::metadata::{Labels, Selector};
use k8s_operator::types::networking::{Ingress, IngressRule, NetworkPolicy, NetworkPolicyIngress};
use k8s_operator::types::rbac::{PolicyRule, Role, RoleBinding};
use k8s_operator::types::render::ChildResource;
use k8s_operator::types::volume::Volume;
use k8s_operator::types::workloads::{Deployment, Job, StatefulSet};

fn owner() -> OwnerReference {
    OwnerReference {
        api_version: "example.com/v1".to_string(),
        kind: "WebApp".to_string(),
        name: "web".to_string(),
        uid: "u-1".to_string(),
        controller: Some(true),
        block_owner_deletion: Some(true),
    }
}

fn label(m: &Option<k8s_operator::kvmap::StringMap<String>>, key: &str) -> Option<String> {
    m.as_ref().and_then(|m| m.get(key).cloned())
}

#[test]
fn deployment_renders_with_app_label_and_owner() {
    let d = Deployment::new("web")
        .replicas(3)
        .container(Container::new("app").image("nginx:1").port(80))
        .service_account("runner");
    assert_eq!(d.name(), "web");
    let k = d.into_k8s("prod", Some(owner()));
    assert_eq!(k.metadata.name.as_deref(), Some("web"));
    assert_eq!(k.metadata.namespace.as_deref(), Some("prod"));
    assert_eq!(label(&k.metadata.labels, "app").as_deref(), Some("web"));
    let owners = k.metadata.owner_references.unwrap();
    assert_eq!(owners.len(), 1);
    assert_eq!(owners[0].uid, "u-1");
    let spec = k.spec.unwrap();
    assert_eq!(spec.replicas, Some(3));
    assert_eq!(label(&spec.selector.match_labels, "app").as_deref(), Some("web"));
    let tpl = spec.template;
    assert_eq!(label(&tpl.metadata.unwrap().labels, "app").as_deref(), Some("web"));
    let pod = tpl.spec.unwrap();
    assert_eq!(pod.containers.len(), 1);
    assert_eq!(pod.containers[0].name, "app");
    assert_eq!(pod.containers[0].image.as_deref(), Some("nginx:1"));
    assert_eq!(pod.containers[0].ports.as_ref().unwrap()[0].container_port, 80);
    assert_eq!(pod.service_account_name.as_deref(), Some("runner"));
    assert!(pod.init_containers.is_none());
    assert!(pod.volumes.is_none());
}

#[test]
fn container_renders_env_resources_probes() {
    let c = Container::new("app").image("img")
        .env("MODE", "prod")
        .env_from_secret("PASS", "creds", "password")
        .env_all_from_configmap("settings")
        .resources(Resources::new().cpu("100m", "1").memory("64Mi", "128Mi"))
        .volume_mount_readonly("data", "/data")
        .liveness_probe(Probe::http("/healthz", 8080).initial_delay(5).period(10))
        .security_context(SecurityContext::new().run_as_user(1000).run_as_non_root(true))
        .command(vec!["run"])
        .args(vec!["--fast"]);
    let k = c.into_k8s();
    let env = k.env.unwrap();
    assert_eq!(env[0].name, "MODE");
    assert_eq!(env[0].value.as_deref(), Some("prod"));
    let from = env[1].value_from.as_ref().unwrap().secret_key_ref.as_ref().unwrap();
    assert_eq!((from.name.as_str(), from.key.as_str()), ("creds", "password"));
    assert_eq!(k.env_from.unwrap()[0].config_map_ref.as_ref().unwrap().name, "settings");
    let res = k.resources.unwrap();
    assert_eq!(label(&res.requests, "cpu").as_deref(), Some("100m"));
    assert_eq!(label(&res.limits, "memory").as_deref(), Some("128Mi"));
    let mounts = k.volume_mounts.unwrap();
    assert_eq!(mounts[0].mount_path, "/data");
    assert_eq!(mounts[0].read_only, Some(true));
    let probe = k.liveness_probe.unwrap();
    let http = probe.http_get.unwrap();
    assert_eq!(http.path.as_deref(), Some("/healthz"));
    assert_eq!(http.port, 8080);
    assert_eq!(probe.initial_delay_seconds, Some(5));
    assert_eq!(probe.period_seconds, Some(10));
    let sc = k.security_context.unwrap();
    assert_eq!(sc.run_as_user, Some(1000));
    assert_eq!(sc.run_as_non_root, Some(true));
    assert_eq!(k.command, Some(vec!["run".to_string()]));
    assert_eq!(k.args, Some(vec!["--fast".to_string()]));
}

#[test]
fn empty_container_lists_are_absent() {
    let k = Container::new("a").image("b").into_k8s();
    assert!(k.command.is_none() && k.args.is_none() && k.ports.is_none());
    assert!(k.env.is_none() && k.env_from.is_none() && k.volume_mounts.is_none());
    assert!(k.resources.is_none());
}

#[test]
fn config_map_and_secret_render_their_data() {
    let cm = ConfigMap::new("cfg").data("a", "1").data("b", "2").into_k8s("ns", None);
    assert_eq!(label(&cm.data, "a").as_deref(), Some("1"));
    assert_eq!(label(&cm.data, "b").as_deref(), Some("2"));
    assert!(cm.metadata.owner_references.is_none());
    let s = Secret::opaque("creds").string_data("user", "admin").into_k8s("ns", None);
    assert_eq!(s.type_.as_deref(), Some("Opaque"));
    assert_eq!(label(&s.string_data, "user").as_deref(), Some("admin"));
}

#[test]
fn service_renders_ports_and_selector() {
    let s = Service::new("web")
        .selector(Selector::new().match_labels("app", "web"))
        .port(80, 80)
        .port_with_target(443, 8443)
        .headless()
        .into_k8s("ns", None);
    let spec = s.spec.unwrap();
    assert_eq!(label(&spec.selector, "app").as_deref(), Some("web"));
    let ports = spec.ports.unwrap();
    assert_eq!(ports.len(), 2);
    assert_eq!((ports[0].port, ports[0].target_port), (80, Some(80)));
    assert_eq!((ports[1].port, ports[1].target_port), (443, Some(8443)));
    assert_eq!(spec.cluster_ip.as_deref(), Some("None"));
}

#[test]
fn statefulset_and_job_render() {
    let s = StatefulSet::new("db", "db-headless").replicas(2).into_k8s("ns", None);
    let spec = s.spec.unwrap();
    assert_eq!(spec.replicas, Some(2));
    assert_eq!(spec.service_name.as_deref(), Some("db-headless"));
    let j = Job::new("migrate").backoff_limit(2).completions(1).into_k8s("ns", None);
    let js = j.spec.unwrap();
    assert_eq!(js.backoff_limit, Some(2));
    assert_eq!(js.completions, Some(1));
}

#[test]
fn networking_and_rbac_render() {
    let i = Ingress::new("web")
        .ingress_class("nginx")
        .rule(IngressRule::new().host("example.com").path("/", "web", 80))
        .tls(vec!["example.com"], "web-tls")
        .into_k8s("ns", None);
    let spec = i.spec.unwrap();
    assert_eq!(spec.ingress_class_name.as_deref(), Some("nginx"));
    let rules = spec.rules.unwrap();
    assert_eq!(rules[0].host.as_deref(), Some("example.com"));
    let path = &rules[0].http.as_ref().unwrap().paths[0];
    assert_eq!(path.path.as_deref(), Some("/"));
    assert_eq!(path.backend.service.as_ref().unwrap().name, "web");
    assert_eq!(spec.tls.unwrap()[0].secret_name.as_deref(), Some("web-tls"));

    let np = NetworkPolicy::new("deny")
        .pod_selector(Selector::new().match_labels("app", "web"))
        .allow_ingress(NetworkPolicyIngress::new().tcp_port(80))
        .deny_all_egress()
        .into_k8s("ns", None);
    let nps = np.spec.unwrap();
    let types = nps.policy_types.unwrap();
    assert!(types.contains(&"Ingress".to_string()));
    assert!(types.contains(&"Egress".to_string()));
    assert_eq!(nps.ingress.unwrap().len(), 1);

    let r = Role::new("reader")
        .rule(PolicyRule::new().api_groups(vec![""]).resources(vec!["pods"]).verbs(vec!["get", "list"]))
        .into_k8s("ns", None);
    let rules = r.rules.unwrap();
    assert_eq!(rules[0].verbs, vec!["get".to_string(), "list".to_string()]);
    let b = RoleBinding::new("read", "reader").service_account("sa", "ns").into_k8s("ns", None);
    assert_eq!(b.role_ref.name, "reader");
    assert_eq!(b.role_ref.kind, "Role");
    let subjects = b.subjects.unwrap();
    assert_eq!(subjects[0].kind, "ServiceAccount");
    assert_eq!(subjects[0].namespace.as_deref(), Some("ns"));
}

#[test]
fn volumes_render_their_source() {
    let v = Volume::secret("certs", "tls-secret").optional(true).into_k8s();
    assert_eq!(v.name, "certs");
    let s = v.secret.unwrap();
    assert_eq!(s.secret_name.as_deref(), Some("tls-secret"));
    assert_eq!(s.optional, Some(true));
    let e = Volume::empty_dir_memory("scratch").into_k8s();
    assert_eq!(e.empty_dir.unwrap().medium.as_deref(), Some("Memory"));
    let labels = Labels::new().insert("tier", "web");
    assert_eq!(labels.get("tier").map(|s| s.as_str()), Some("web"));
}
