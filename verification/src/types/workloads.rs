//! Workloads: deployments, stateful sets, daemon sets, jobs, cron jobs and
//! persistent volume claims.
use crate::api::apps_v1 as apps;
use crate::api::batch_v1 as batch;
use crate::api::core_v1 as core_api;
use crate::api::meta::{LabelSelector, OwnerReference};
use crate::kvmap::{lemma_no_pairs_iff_empty, StringMap};
use crate::text::text;
use crate::types::container::Container;
use crate::types::core_objects::{app_label, pod_spec, pod_spec_renders};
use crate::types::metadata::{Labels, Selector};
use crate::types::render::{
    all_render, meta_renders, namespaced_meta, nonempty_map, pushed, render_all, renders_list,
    some_if_nonempty_map, some_text, template_meta, template_meta_renders, unnamespaced_meta,
    ChildResource, ToK8s,
};
use crate::types::volume::Volume;
use vstd::prelude::*;

verus! {

/// A deployment.
#[derive(Clone, Debug)]
pub struct Deployment {
    pub name: String,
    pub replicas: i32,
    pub labels: Labels,
    pub selector: Selector,
    pub containers: Vec<Container>,
    pub init_containers: Vec<Container>,
    pub volumes: Vec<Volume>,
    pub service_account: Option<String>,
    pub node_selector: StringMap<String>,
    pub restart_policy: Option<String>,
    pub image_pull_secrets: Vec<String>,
}

impl Deployment {
    /// One replica named `name`, labelled and selecting `app=<name>`, with
    /// no containers.
    pub fn new(name: &str) -> (d: Self)
        ensures
            d.name@ == name@,
            d.replicas == 1,
            d.labels@ == app_label(name@),
            d.selector@ == app_label(name@),
            d.containers@.len() == 0,
            d.init_containers@.len() == 0,
            d.volumes@.len() == 0,
            d.service_account is None,
            d.node_selector@ == Map::<Seq<char>, Seq<char>>::empty(),
            d.restart_policy is None,
            d.image_pull_secrets@.len() == 0,
    {
        Deployment {
            name: text(name),
            replicas: 1,
            labels: Labels::new().insert("app", name),
            selector: Selector::new().match_labels("app", name),
            containers: Vec::new(),
            init_containers: Vec::new(),
            volumes: Vec::new(),
            service_account: None,
            node_selector: StringMap::new(),
            restart_policy: None,
            image_pull_secrets: Vec::new(),
        }
    }

    /// Sets the number of replicas.
    pub fn replicas(self, n: i32) -> (d: Self)
        ensures
            d == (Deployment { replicas: n, ..self }),
    {
        Deployment { replicas: n, ..self }
    }

    /// Replaces the labels of the deployment and of its pods.
    pub fn labels(self, labels: Labels) -> (d: Self)
        ensures
            d == (Deployment { labels, ..self }),
    {
        Deployment { labels, ..self }
    }

    /// Replaces the pod selector.
    pub fn selector(self, selector: Selector) -> (d: Self)
        ensures
            d == (Deployment { selector, ..self }),
    {
        Deployment { selector, ..self }
    }

    /// Adds a container.
    pub fn container(self, container: Container) -> (d: Self)
        ensures
            d.containers@ == self.containers@.push(container),
            d == (Deployment { containers: d.containers, ..self }),
    {
        let mut containers = self.containers;
        containers.push(container);
        Deployment { containers, ..self }
    }

    /// Adds an init container.
    pub fn init_container(self, container: Container) -> (d: Self)
        ensures
            d.init_containers@ == self.init_containers@.push(container),
            d == (Deployment { init_containers: d.init_containers, ..self }),
    {
        let mut init_containers = self.init_containers;
        init_containers.push(container);
        Deployment { init_containers, ..self }
    }

    /// Adds a volume.
    pub fn volume(self, volume: Volume) -> (d: Self)
        ensures
            d.volumes@ == self.volumes@.push(volume),
            d == (Deployment { volumes: d.volumes, ..self }),
    {
        let mut volumes = self.volumes;
        volumes.push(volume);
        Deployment { volumes, ..self }
    }

    /// Runs the pods as service account `name`.
    pub fn service_account(self, name: &str) -> (d: Self)
        ensures
            some_text(d.service_account, name@),
            d == (Deployment { service_account: d.service_account, ..self }),
    {
        Deployment { service_account: Some(text(name)), ..self }
    }

    /// Requires node label `key` to equal `value`.
    pub fn node_selector(self, key: &str, value: &str) -> (d: Self)
        ensures
            d.node_selector@ == self.node_selector@.insert(key@, value@),
            d == (Deployment { node_selector: d.node_selector, ..self }),
    {
        Deployment { node_selector: self.node_selector.insert(text(key), text(value)), ..self }
    }

    /// Adds image pull secret `name`.
    pub fn image_pull_secret(self, name: &str) -> (d: Self)
        ensures
            pushed(self.image_pull_secrets@, d.image_pull_secrets@),
            d.image_pull_secrets@.last()@ == name@,
            d == (Deployment { image_pull_secrets: d.image_pull_secrets, ..self }),
    {
        let mut image_pull_secrets = self.image_pull_secrets;
        image_pull_secrets.push(text(name));
        Deployment { image_pull_secrets, ..self }
    }
}

impl ChildResource for Deployment {
    type K8sType = apps::Deployment;

    open spec fn object_name(&self) -> Seq<char> {
        self.name@
    }

    open spec fn renders_in(
        self,
        namespace: Seq<char>,
        owner_ref: Option<OwnerReference>,
        k: apps::Deployment,
    ) -> bool {
        &&& meta_renders(k.metadata, self.name, Some(namespace), Some(self.labels.0), None, owner_ref)
        &&& k.spec matches Some(s) && {
            &&& s.replicas == Some(self.replicas)
            &&& s.selector.match_labels == Some(self.selector.0)
            &&& s.template.metadata matches Some(m) && template_meta_renders(m, self.labels.0)
            &&& s.template.spec matches Some(p) && pod_spec_renders(
                p,
                self.containers@,
                self.init_containers@,
                self.volumes@,
                self.service_account,
                self.restart_policy,
                nonempty_map(self.node_selector),
                self.image_pull_secrets@,
            )
        }
    }

    fn name(&self) -> (r: &str) {
        self.name.as_str()
    }

    /// The API deployment in `namespace`; its pods carry the deployment's
    /// labels.
    fn into_k8s(self, namespace: &str, owner_ref: Option<OwnerReference>) -> (k: apps::Deployment) {
        let labels_copy = self.labels.0.duplicate();
        let metadata = namespaced_meta(self.name, namespace, Some(labels_copy), None, owner_ref);
        let template = core_api::PodTemplateSpec {
            metadata: Some(template_meta(self.labels.0)),
            spec: Some(
                pod_spec(
                    self.containers,
                    self.init_containers,
                    self.volumes,
                    self.service_account,
                    self.restart_policy,
                    some_if_nonempty_map(self.node_selector),
                    self.image_pull_secrets,
                ),
            ),
        };
        apps::Deployment {
            metadata,
            spec: Some(
                apps::DeploymentSpec {
                    replicas: Some(self.replicas),
                    selector: LabelSelector { match_labels: Some(self.selector.0) },
                    template,
                },
            ),
        }
    }
}

/// The pods of a rendered deployment are placed by exactly the node
/// labels set with `node_selector`: the selector is present with those
/// pairs when any was set, and absent when none was.
pub proof fn law_deployment_pods_keep_node_selector(
    d: Deployment,
    namespace: Seq<char>,
    owner_ref: Option<OwnerReference>,
    k: apps::Deployment,
)
    requires
        d.renders_in(namespace, owner_ref, k),
    ensures
        k.spec matches Some(s) && s.template.spec matches Some(p) && if d.node_selector@ == Map::<
            Seq<char>,
            Seq<char>,
        >::empty() {
            p.node_selector is None
        } else {
            p.node_selector matches Some(m) && m@ == d.node_selector@
        },
{
    lemma_no_pairs_iff_empty(d.node_selector);
}

/// A stateful set.
#[derive(Clone, Debug)]
pub struct StatefulSet {
    pub name: String,
    pub replicas: i32,
    pub labels: Labels,
    pub selector: Selector,
    pub containers: Vec<Container>,
    pub init_containers: Vec<Container>,
    pub volumes: Vec<Volume>,
    pub volume_claim_templates: Vec<PersistentVolumeClaim>,
    pub service_name: String,
    pub service_account: Option<String>,
    pub pod_management_policy: Option<String>,
}

impl StatefulSet {
    /// One replica named `name` governed by service `service_name`,
    /// labelled and selecting `app=<name>`, with no containers.
    pub fn new(name: &str, service_name: &str) -> (s: Self)
        ensures
            s.name@ == name@,
            s.replicas == 1,
            s.labels@ == app_label(name@),
            s.selector@ == app_label(name@),
            s.containers@.len() == 0,
            s.init_containers@.len() == 0,
            s.volumes@.len() == 0,
            s.volume_claim_templates@.len() == 0,
            s.service_name@ == service_name@,
            s.service_account is None,
            s.pod_management_policy is None,
    {
        StatefulSet {
            name: text(name),
            replicas: 1,
            labels: Labels::new().insert("app", name),
            selector: Selector::new().match_labels("app", name),
            containers: Vec::new(),
            init_containers: Vec::new(),
            volumes: Vec::new(),
            volume_claim_templates: Vec::new(),
            service_name: text(service_name),
            service_account: None,
            pod_management_policy: None,
        }
    }

    /// Sets the number of replicas.
    pub fn replicas(self, n: i32) -> (s: Self)
        ensures
            s == (StatefulSet { replicas: n, ..self }),
    {
        StatefulSet { replicas: n, ..self }
    }

    /// Replaces the labels of the set and of its pods.
    pub fn labels(self, labels: Labels) -> (s: Self)
        ensures
            s == (StatefulSet { labels, ..self }),
    {
        StatefulSet { labels, ..self }
    }

    /// Replaces the pod selector.
    pub fn selector(self, selector: Selector) -> (s: Self)
        ensures
            s == (StatefulSet { selector, ..self }),
    {
        StatefulSet { selector, ..self }
    }

    /// Adds a container.
    pub fn container(self, container: Container) -> (s: Self)
        ensures
            s.containers@ == self.containers@.push(container),
            s == (StatefulSet { containers: s.containers, ..self }),
    {
        let mut containers = self.containers;
        containers.push(container);
        StatefulSet { containers, ..self }
    }

    /// Adds an init container.
    pub fn init_container(self, container: Container) -> (s: Self)
        ensures
            s.init_containers@ == self.init_containers@.push(container),
            s == (StatefulSet { init_containers: s.init_containers, ..self }),
    {
        let mut init_containers = self.init_containers;
        init_containers.push(container);
        StatefulSet { init_containers, ..self }
    }

    /// Adds a volume.
    pub fn volume(self, volume: Volume) -> (s: Self)
        ensures
            s.volumes@ == self.volumes@.push(volume),
            s == (StatefulSet { volumes: s.volumes, ..self }),
    {
        let mut volumes = self.volumes;
        volumes.push(volume);
        StatefulSet { volumes, ..self }
    }

    /// Adds a claim template: each pod gets its own claim made from it.
    pub fn volume_claim_template(self, pvc: PersistentVolumeClaim) -> (s: Self)
        ensures
            s.volume_claim_templates@ == self.volume_claim_templates@.push(pvc),
            s == (StatefulSet { volume_claim_templates: s.volume_claim_templates, ..self }),
    {
        let mut volume_claim_templates = self.volume_claim_templates;
        volume_claim_templates.push(pvc);
        StatefulSet { volume_claim_templates, ..self }
    }

    /// Runs the pods as service account `name`.
    pub fn service_account(self, name: &str) -> (s: Self)
        ensures
            some_text(s.service_account, name@),
            s == (StatefulSet { service_account: s.service_account, ..self }),
    {
        StatefulSet { service_account: Some(text(name)), ..self }
    }

    /// Starts and stops pods in parallel.
    pub fn parallel_pod_management(self) -> (s: Self)
        ensures
            some_text(s.pod_management_policy, "Parallel"@),
            s == (StatefulSet { pod_management_policy: s.pod_management_policy, ..self }),
    {
        StatefulSet { pod_management_policy: Some(text("Parallel")), ..self }
    }
}

/// Renders claim templates in order.
fn claim_templates(v: Vec<PersistentVolumeClaim>) -> (r: Option<
    Vec<core_api::PersistentVolumeClaim>,
>)
    ensures
        if v@.len() == 0 {
            r is None
        } else {
            r matches Some(w) && w@.len() == v@.len() && forall|i: int|
                0 <= i < v@.len() ==> #[trigger] v@[i].template_renders(w@[i])
        },
{
    if v.len() == 0 {
        return None;
    }
    let ghost orig = v@;
    let mut rest = v;
    let mut out: Vec<core_api::PersistentVolumeClaim> = Vec::new();
    while rest.len() > 0
        invariant
            out@.len() + rest@.len() == orig.len(),
            rest@ == orig.subrange(out@.len() as int, orig.len() as int),
            forall|i: int| 0 <= i < out@.len() ==> #[trigger] orig[i].template_renders(out@[i]),
        decreases rest@.len(),
    {
        let ghost n = out@.len();
        let x = rest.remove(0);
        proof {
            assert(x == orig[n as int]);
        }
        out.push(x.into_k8s_template());
        proof {
            assert(rest@ =~= orig.subrange(out@.len() as int, orig.len() as int));
            assert forall|i: int| 0 <= i < out@.len() implies #[trigger] orig[i].template_renders(
                out@[i],
            ) by {
                if i < n {
                    assert(out@[i] == out@.drop_last()[i]);
                }
            }
        }
    }
    Some(out)
}

impl ChildResource for StatefulSet {
    type K8sType = apps::StatefulSet;

    open spec fn object_name(&self) -> Seq<char> {
        self.name@
    }

    open spec fn renders_in(
        self,
        namespace: Seq<char>,
        owner_ref: Option<OwnerReference>,
        k: apps::StatefulSet,
    ) -> bool {
        &&& meta_renders(k.metadata, self.name, Some(namespace), Some(self.labels.0), None, owner_ref)
        &&& k.spec matches Some(s) && {
            &&& s.replicas == Some(self.replicas)
            &&& s.selector.match_labels == Some(self.selector.0)
            &&& s.service_name == Some(self.service_name)
            &&& s.pod_management_policy == self.pod_management_policy
            &&& s.template.metadata matches Some(m) && template_meta_renders(m, self.labels.0)
            &&& s.template.spec matches Some(p) && pod_spec_renders(
                p,
                self.containers@,
                self.init_containers@,
                self.volumes@,
                self.service_account,
                None,
                None,
                Seq::empty(),
            )
            &&& if self.volume_claim_templates@.len() == 0 {
                s.volume_claim_templates is None
            } else {
                s.volume_claim_templates matches Some(w) && w@.len()
                    == self.volume_claim_templates@.len() && forall|i: int|
                    0 <= i < w@.len() ==> #[trigger] self.volume_claim_templates@[i].template_renders(
                        w@[i],
                    )
            }
        }
    }

    fn name(&self) -> (r: &str) {
        self.name.as_str()
    }

    /// The API stateful set in `namespace`; its pods carry the set's
    /// labels, and each claim template is rendered without a namespace.
    fn into_k8s(self, namespace: &str, owner_ref: Option<OwnerReference>) -> (k: apps::StatefulSet) {
        let labels_copy = self.labels.0.duplicate();
        let metadata = namespaced_meta(self.name, namespace, Some(labels_copy), None, owner_ref);
        let template = core_api::PodTemplateSpec {
            metadata: Some(template_meta(self.labels.0)),
            spec: Some(
                pod_spec(
                    self.containers,
                    self.init_containers,
                    self.volumes,
                    self.service_account,
                    None,
                    None,
                    Vec::new(),
                ),
            ),
        };
        apps::StatefulSet {
            metadata,
            spec: Some(
                apps::StatefulSetSpec {
                    replicas: Some(self.replicas),
                    selector: LabelSelector { match_labels: Some(self.selector.0) },
                    service_name: Some(self.service_name),
                    pod_management_policy: self.pod_management_policy,
                    template,
                    volume_claim_templates: claim_templates(self.volume_claim_templates),
                },
            ),
        }
    }
}

/// A daemon set.
#[derive(Clone, Debug)]
pub struct DaemonSet {
    pub name: String,
    pub labels: Labels,
    pub selector: Selector,
    pub containers: Vec<Container>,
    pub init_containers: Vec<Container>,
    pub volumes: Vec<Volume>,
    pub service_account: Option<String>,
    pub node_selector: StringMap<String>,
}

impl DaemonSet {
    /// A daemon set named `name`, labelled and selecting `app=<name>`, with
    /// no containers.
    pub fn new(name: &str) -> (d: Self)
        ensures
            d.name@ == name@,
            d.labels@ == app_label(name@),
            d.selector@ == app_label(name@),
            d.containers@.len() == 0,
            d.init_containers@.len() == 0,
            d.volumes@.len() == 0,
            d.service_account is None,
            d.node_selector@ == Map::<Seq<char>, Seq<char>>::empty(),
    {
        DaemonSet {
            name: text(name),
            labels: Labels::new().insert("app", name),
            selector: Selector::new().match_labels("app", name),
            containers: Vec::new(),
            init_containers: Vec::new(),
            volumes: Vec::new(),
            service_account: None,
            node_selector: StringMap::new(),
        }
    }

    /// Replaces the labels of the set and of its pods.
    pub fn labels(self, labels: Labels) -> (d: Self)
        ensures
            d == (DaemonSet { labels, ..self }),
    {
        DaemonSet { labels, ..self }
    }

    /// Replaces the pod selector.
    pub fn selector(self, selector: Selector) -> (d: Self)
        ensures
            d == (DaemonSet { selector, ..self }),
    {
        DaemonSet { selector, ..self }
    }

    /// Adds a container.
    pub fn container(self, container: Container) -> (d: Self)
        ensures
            d.containers@ == self.containers@.push(container),
            d == (DaemonSet { containers: d.containers, ..self }),
    {
        let mut containers = self.containers;
        containers.push(container);
        DaemonSet { containers, ..self }
    }

    /// Adds an init container.
    pub fn init_container(self, container: Container) -> (d: Self)
        ensures
            d.init_containers@ == self.init_containers@.push(container),
            d == (DaemonSet { init_containers: d.init_containers, ..self }),
    {
        let mut init_containers = self.init_containers;
        init_containers.push(container);
        DaemonSet { init_containers, ..self }
    }

    /// Adds a volume.
    pub fn volume(self, volume: Volume) -> (d: Self)
        ensures
            d.volumes@ == self.volumes@.push(volume),
            d == (DaemonSet { volumes: d.volumes, ..self }),
    {
        let mut volumes = self.volumes;
        volumes.push(volume);
        DaemonSet { volumes, ..self }
    }

    /// Runs the pods as service account `name`.
    pub fn service_account(self, name: &str) -> (d: Self)
        ensures
            some_text(d.service_account, name@),
            d == (DaemonSet { service_account: d.service_account, ..self }),
    {
        DaemonSet { service_account: Some(text(name)), ..self }
    }

    /// Requires node label `key` to equal `value`.
    pub fn node_selector(self, key: &str, value: &str) -> (d: Self)
        ensures
            d.node_selector@ == self.node_selector@.insert(key@, value@),
            d == (DaemonSet { node_selector: d.node_selector, ..self }),
    {
        DaemonSet { node_selector: self.node_selector.insert(text(key), text(value)), ..self }
    }
}

impl ChildResource for DaemonSet {
    type K8sType = apps::DaemonSet;

    open spec fn object_name(&self) -> Seq<char> {
        self.name@
    }

    open spec fn renders_in(
        self,
        namespace: Seq<char>,
        owner_ref: Option<OwnerReference>,
        k: apps::DaemonSet,
    ) -> bool {
        &&& meta_renders(k.metadata, self.name, Some(namespace), Some(self.labels.0), None, owner_ref)
        &&& k.spec matches Some(s) && {
            &&& s.selector.match_labels == Some(self.selector.0)
            &&& s.template.metadata matches Some(m) && template_meta_renders(m, self.labels.0)
            &&& s.template.spec matches Some(p) && pod_spec_renders(
                p,
                self.containers@,
                self.init_containers@,
                self.volumes@,
                self.service_account,
                None,
                nonempty_map(self.node_selector),
                Seq::empty(),
            )
        }
    }

    fn name(&self) -> (r: &str) {
        self.name.as_str()
    }

    /// The API daemon set in `namespace`; its pods carry the set's labels.
    fn into_k8s(self, namespace: &str, owner_ref: Option<OwnerReference>) -> (k: apps::DaemonSet) {
        let labels_copy = self.labels.0.duplicate();
        let metadata = namespaced_meta(self.name, namespace, Some(labels_copy), None, owner_ref);
        let template = core_api::PodTemplateSpec {
            metadata: Some(template_meta(self.labels.0)),
            spec: Some(
                pod_spec(
                    self.containers,
                    self.init_containers,
                    self.volumes,
                    self.service_account,
                    None,
                    some_if_nonempty_map(self.node_selector),
                    Vec::new(),
                ),
            ),
        };
        apps::DaemonSet {
            metadata,
            spec: Some(
                apps::DaemonSetSpec {
                    selector: LabelSelector { match_labels: Some(self.selector.0) },
                    template,
                },
            ),
        }
    }
}

/// The pods of a rendered daemon set are placed by exactly the node
/// labels set with `node_selector`: the selector is present with those
/// pairs when any was set, and absent when none was.
pub proof fn law_daemon_set_pods_keep_node_selector(
    d: DaemonSet,
    namespace: Seq<char>,
    owner_ref: Option<OwnerReference>,
    k: apps::DaemonSet,
)
    requires
        d.renders_in(namespace, owner_ref, k),
    ensures
        k.spec matches Some(s) && s.template.spec matches Some(p) && if d.node_selector@ == Map::<
            Seq<char>,
            Seq<char>,
        >::empty() {
            p.node_selector is None
        } else {
            p.node_selector matches Some(m) && m@ == d.node_selector@
        },
{
    lemma_no_pairs_iff_empty(d.node_selector);
}

/// A job.
#[derive(Clone, Debug)]
pub struct Job {
    pub name: String,
    pub labels: Labels,
    pub containers: Vec<Container>,
    pub init_containers: Vec<Container>,
    pub volumes: Vec<Volume>,
    pub restart_policy: String,
    pub backoff_limit: Option<i32>,
    pub completions: Option<i32>,
    pub parallelism: Option<i32>,
    pub active_deadline_seconds: Option<i64>,
    pub ttl_seconds_after_finished: Option<i32>,
    pub service_account: Option<String>,
}

/// The job specification that `job` renders to.
pub open spec fn job_spec_renders(job: Job, s: batch::JobSpec) -> bool {
    &&& s.backoff_limit == job.backoff_limit
    &&& s.completions == job.completions
    &&& s.parallelism == job.parallelism
    &&& s.active_deadline_seconds == job.active_deadline_seconds
    &&& s.ttl_seconds_after_finished == job.ttl_seconds_after_finished
    &&& s.template.metadata matches Some(m) && template_meta_renders(m, job.labels.0)
    &&& s.template.spec matches Some(p) && pod_spec_renders(
        p,
        job.containers@,
        job.init_containers@,
        job.volumes@,
        job.service_account,
        Some(job.restart_policy),
        None,
        Seq::empty(),
    )
}

impl Job {
    /// A job named `name`, labelled `app=<name>`, whose pods are never
    /// restarted, with no containers.
    pub fn new(name: &str) -> (j: Self)
        ensures
            j.name@ == name@,
            j.labels@ == app_label(name@),
            j.containers@.len() == 0,
            j.init_containers@.len() == 0,
            j.volumes@.len() == 0,
            j.restart_policy@ == "Never"@,
            j.backoff_limit is None,
            j.completions is None,
            j.parallelism is None,
            j.active_deadline_seconds is None,
            j.ttl_seconds_after_finished is None,
            j.service_account is None,
    {
        Job {
            name: text(name),
            labels: Labels::new().insert("app", name),
            containers: Vec::new(),
            init_containers: Vec::new(),
            volumes: Vec::new(),
            restart_policy: text("Never"),
            backoff_limit: None,
            completions: None,
            parallelism: None,
            active_deadline_seconds: None,
            ttl_seconds_after_finished: None,
            service_account: None,
        }
    }

    /// Replaces the labels of the job and of its pods.
    pub fn labels(self, labels: Labels) -> (j: Self)
        ensures
            j == (Job { labels, ..self }),
    {
        Job { labels, ..self }
    }

    /// Adds a container.
    pub fn container(self, container: Container) -> (j: Self)
        ensures
            j.containers@ == self.containers@.push(container),
            j == (Job { containers: j.containers, ..self }),
    {
        let mut containers = self.containers;
        containers.push(container);
        Job { containers, ..self }
    }

    /// Adds an init container.
    pub fn init_container(self, container: Container) -> (j: Self)
        ensures
            j.init_containers@ == self.init_containers@.push(container),
            j == (Job { init_containers: j.init_containers, ..self }),
    {
        let mut init_containers = self.init_containers;
        init_containers.push(container);
        Job { init_containers, ..self }
    }

    /// Adds a volume.
    pub fn volume(self, volume: Volume) -> (j: Self)
        ensures
            j.volumes@ == self.volumes@.push(volume),
            j == (Job { volumes: j.volumes, ..self }),
    {
        let mut volumes = self.volumes;
        volumes.push(volume);
        Job { volumes, ..self }
    }

    /// Restarts failed pods instead of never restarting them.
    pub fn restart_on_failure(self) -> (j: Self)
        ensures
            j.restart_policy@ == "OnFailure"@,
            j == (Job { restart_policy: j.restart_policy, ..self }),
    {
        Job { restart_policy: text("OnFailure"), ..self }
    }

    /// Sets how many retries are allowed.
    pub fn backoff_limit(self, limit: i32) -> (j: Self)
        ensures
            j == (Job { backoff_limit: Some(limit), ..self }),
    {
        Job { backoff_limit: Some(limit), ..self }
    }

    /// Sets how many successful pods complete the job.
    pub fn completions(self, n: i32) -> (j: Self)
        ensures
            j == (Job { completions: Some(n), ..self }),
    {
        Job { completions: Some(n), ..self }
    }

    /// Sets how many pods run at once.
    pub fn parallelism(self, n: i32) -> (j: Self)
        ensures
            j == (Job { parallelism: Some(n), ..self }),
    {
        Job { parallelism: Some(n), ..self }
    }

    /// Sets how long the job may run.
    pub fn active_deadline(self, seconds: i64) -> (j: Self)
        ensures
            j == (Job { active_deadline_seconds: Some(seconds), ..self }),
    {
        Job { active_deadline_seconds: Some(seconds), ..self }
    }

    /// Deletes the job `seconds` after it finishes.
    pub fn ttl_after_finished(self, seconds: i32) -> (j: Self)
        ensures
            j == (Job { ttl_seconds_after_finished: Some(seconds), ..self }),
    {
        Job { ttl_seconds_after_finished: Some(seconds), ..self }
    }

    /// Runs the pods as service account `name`.
    pub fn service_account(self, name: &str) -> (j: Self)
        ensures
            some_text(j.service_account, name@),
            j == (Job { service_account: j.service_account, ..self }),
    {
        Job { service_account: Some(text(name)), ..self }
    }

    /// The job specification, without the job's own metadata.
    fn job_spec(self) -> (s: batch::JobSpec)
        ensures
            job_spec_renders(self, s),
    {
        batch::JobSpec {
            backoff_limit: self.backoff_limit,
            completions: self.completions,
            parallelism: self.parallelism,
            active_deadline_seconds: self.active_deadline_seconds,
            ttl_seconds_after_finished: self.ttl_seconds_after_finished,
            template: core_api::PodTemplateSpec {
                metadata: Some(template_meta(self.labels.0)),
                spec: Some(
                    pod_spec(
                        self.containers,
                        self.init_containers,
                        self.volumes,
                        self.service_account,
                        Some(self.restart_policy),
                        None,
                        Vec::new(),
                    ),
                ),
            },
        }
    }
}

impl ChildResource for Job {
    type K8sType = batch::Job;

    open spec fn object_name(&self) -> Seq<char> {
        self.name@
    }

    open spec fn renders_in(
        self,
        namespace: Seq<char>,
        owner_ref: Option<OwnerReference>,
        k: batch::Job,
    ) -> bool {
        &&& meta_renders(k.metadata, self.name, Some(namespace), Some(self.labels.0), None, owner_ref)
        &&& k.spec matches Some(s) && job_spec_renders(self, s)
    }

    fn name(&self) -> (r: &str) {
        self.name.as_str()
    }

    /// The API job in `namespace`; its pods carry the job's labels and
    /// restart policy.
    fn into_k8s(self, namespace: &str, owner_ref: Option<OwnerReference>) -> (k: batch::Job) {
        let labels_copy = self.labels.0.duplicate();
        let metadata = namespaced_meta(
            self.name.clone(),
            namespace,
            Some(labels_copy),
            None,
            owner_ref,
        );
        batch::Job { metadata, spec: Some(self.job_spec()) }
    }
}

/// A cron job.
#[derive(Clone, Debug)]
pub struct CronJob {
    pub name: String,
    pub schedule: String,
    pub labels: Labels,
    pub job_template: Job,
    pub concurrency_policy: Option<String>,
    pub suspend: Option<bool>,
    pub successful_jobs_history_limit: Option<i32>,
    pub failed_jobs_history_limit: Option<i32>,
}

impl CronJob {
    /// A cron job named `name` running on `schedule`, labelled
    /// `app=<name>`, whose job template is `Job::new(name)`.
    pub fn new(name: &str, schedule: &str) -> (c: Self)
        ensures
            c.name@ == name@,
            c.schedule@ == schedule@,
            c.labels@ == app_label(name@),
            c.job_template.name@ == name@,
            c.job_template.labels@ == app_label(name@),
            c.job_template.containers@.len() == 0,
            c.job_template.init_containers@.len() == 0,
            c.job_template.volumes@.len() == 0,
            c.job_template.restart_policy@ == "Never"@,
            c.job_template.backoff_limit is None,
            c.job_template.completions is None,
            c.job_template.parallelism is None,
            c.job_template.active_deadline_seconds is None,
            c.job_template.ttl_seconds_after_finished is None,
            c.job_template.service_account is None,
            c.concurrency_policy is None,
            c.suspend is None,
            c.successful_jobs_history_limit is None,
            c.failed_jobs_history_limit is None,
    {
        CronJob {
            name: text(name),
            schedule: text(schedule),
            labels: Labels::new().insert("app", name),
            job_template: Job::new(name),
            concurrency_policy: None,
            suspend: None,
            successful_jobs_history_limit: None,
            failed_jobs_history_limit: None,
        }
    }

    /// Replaces the labels of the cron job.
    pub fn labels(self, labels: Labels) -> (c: Self)
        ensures
            c == (CronJob { labels, ..self }),
    {
        CronJob { labels, ..self }
    }

    /// Adds a container to the job template.
    pub fn container(self, container: Container) -> (c: Self)
        ensures
            c.job_template.containers@ == self.job_template.containers@.push(container),
            c.job_template == (Job { containers: c.job_template.containers, ..self.job_template }),
            c == (CronJob { job_template: c.job_template, ..self }),
    {
        CronJob { job_template: self.job_template.container(container), ..self }
    }

    /// Adds a volume to the job template.
    pub fn volume(self, volume: Volume) -> (c: Self)
        ensures
            c.job_template.volumes@ == self.job_template.volumes@.push(volume),
            c.job_template == (Job { volumes: c.job_template.volumes, ..self.job_template }),
            c == (CronJob { job_template: c.job_template, ..self }),
    {
        CronJob { job_template: self.job_template.volume(volume), ..self }
    }

    /// Skips a run while the previous one is still running.
    pub fn forbid_concurrent(self) -> (c: Self)
        ensures
            some_text(c.concurrency_policy, "Forbid"@),
            c == (CronJob { concurrency_policy: c.concurrency_policy, ..self }),
    {
        CronJob { concurrency_policy: Some(text("Forbid")), ..self }
    }

    /// Replaces a still running run by the new one.
    pub fn replace_concurrent(self) -> (c: Self)
        ensures
            some_text(c.concurrency_policy, "Replace"@),
            c == (CronJob { concurrency_policy: c.concurrency_policy, ..self }),
    {
        CronJob { concurrency_policy: Some(text("Replace")), ..self }
    }

    /// Suspends (or resumes) the schedule.
    pub fn suspend(self, value: bool) -> (c: Self)
        ensures
            c == (CronJob { suspend: Some(value), ..self }),
    {
        CronJob { suspend: Some(value), ..self }
    }

    /// Sets how many successful and failed jobs are kept.
    pub fn history_limits(self, success: i32, failed: i32) -> (c: Self)
        ensures
            c == (CronJob {
                successful_jobs_history_limit: Some(success),
                failed_jobs_history_limit: Some(failed),
                ..self
            }),
    {
        CronJob {
            successful_jobs_history_limit: Some(success),
            failed_jobs_history_limit: Some(failed),
            ..self
        }
    }

    /// Runs the job's pods as service account `name`.
    pub fn service_account(self, name: &str) -> (c: Self)
        ensures
            some_text(c.job_template.service_account, name@),
            c.job_template == (Job {
                service_account: c.job_template.service_account,
                ..self.job_template
            }),
            c == (CronJob { job_template: c.job_template, ..self }),
    {
        CronJob { job_template: self.job_template.service_account(name), ..self }
    }
}

impl ChildResource for CronJob {
    type K8sType = batch::CronJob;

    open spec fn object_name(&self) -> Seq<char> {
        self.name@
    }

    open spec fn renders_in(
        self,
        namespace: Seq<char>,
        owner_ref: Option<OwnerReference>,
        k: batch::CronJob,
    ) -> bool {
        &&& meta_renders(k.metadata, self.name, Some(namespace), Some(self.labels.0), None, owner_ref)
        &&& k.spec matches Some(s) && {
            &&& s.schedule == self.schedule
            &&& s.concurrency_policy == self.concurrency_policy
            &&& s.suspend == self.suspend
            &&& s.successful_jobs_history_limit == self.successful_jobs_history_limit
            &&& s.failed_jobs_history_limit == self.failed_jobs_history_limit
            &&& s.job_template.spec matches Some(j) && job_spec_renders(self.job_template, j)
        }
    }

    fn name(&self) -> (r: &str) {
        self.name.as_str()
    }

    /// The API cron job in `namespace`; the job template carries the
    /// specification of the template job.
    fn into_k8s(self, namespace: &str, owner_ref: Option<OwnerReference>) -> (k: batch::CronJob) {
        batch::CronJob {
            metadata: namespaced_meta(self.name, namespace, Some(self.labels.0), None, owner_ref),
            spec: Some(
                batch::CronJobSpec {
                    schedule: self.schedule,
                    concurrency_policy: self.concurrency_policy,
                    suspend: self.suspend,
                    successful_jobs_history_limit: self.successful_jobs_history_limit,
                    failed_jobs_history_limit: self.failed_jobs_history_limit,
                    job_template: batch::JobTemplateSpec { spec: Some(self.job_template.job_spec()) },
                },
            ),
        }
    }
}

/// A persistent volume claim.
#[derive(Clone, Debug)]
pub struct PersistentVolumeClaim {
    pub name: String,
    pub labels: Labels,
    pub storage_class: Option<String>,
    pub access_modes: Vec<String>,
    pub storage: String,
}

/// The claim specification that `pvc` renders to: its access modes,
/// storage class and a request for its storage.
pub open spec fn claim_spec_renders(
    pvc: PersistentVolumeClaim,
    s: core_api::PersistentVolumeClaimSpec,
) -> bool {
    &&& s.access_modes == Some(pvc.access_modes)
    &&& s.storage_class_name == pvc.storage_class
    &&& s.resources matches Some(r) && r.requests matches Some(q) && q@ == Map::<
        Seq<char>,
        Seq<char>,
    >::empty().insert("storage"@, pvc.storage@)
}

impl PersistentVolumeClaim {
    /// A read-write-once claim named `name` for `storage` of storage.
    pub fn new(name: &str, storage: &str) -> (p: Self)
        ensures
            p.name@ == name@,
            p.labels@ == Map::<Seq<char>, Seq<char>>::empty(),
            p.storage_class is None,
            p.access_modes@.len() == 1,
            p.access_modes@[0]@ == "ReadWriteOnce"@,
            p.storage@ == storage@,
    {
        let mut access_modes = Vec::new();
        access_modes.push(text("ReadWriteOnce"));
        PersistentVolumeClaim {
            name: text(name),
            labels: Labels::new(),
            storage_class: None,
            access_modes,
            storage: text(storage),
        }
    }

    /// Replaces the labels.
    pub fn labels(self, labels: Labels) -> (p: Self)
        ensures
            p == (PersistentVolumeClaim { labels, ..self }),
    {
        PersistentVolumeClaim { labels, ..self }
    }

    /// Sets the storage class.
    pub fn storage_class(self, class: &str) -> (p: Self)
        ensures
            some_text(p.storage_class, class@),
            p == (PersistentVolumeClaim { storage_class: p.storage_class, ..self }),
    {
        PersistentVolumeClaim { storage_class: Some(text(class)), ..self }
    }

    /// Makes the claim read-write by many nodes, and nothing else.
    pub fn read_write_many(self) -> (p: Self)
        ensures
            p.access_modes@.len() == 1,
            p.access_modes@[0]@ == "ReadWriteMany"@,
            p == (PersistentVolumeClaim { access_modes: p.access_modes, ..self }),
    {
        let mut access_modes = Vec::new();
        access_modes.push(text("ReadWriteMany"));
        PersistentVolumeClaim { access_modes, ..self }
    }

    /// Makes the claim read-only by many nodes, and nothing else.
    pub fn read_only_many(self) -> (p: Self)
        ensures
            p.access_modes@.len() == 1,
            p.access_modes@[0]@ == "ReadOnlyMany"@,
            p == (PersistentVolumeClaim { access_modes: p.access_modes, ..self }),
    {
        let mut access_modes = Vec::new();
        access_modes.push(text("ReadOnlyMany"));
        PersistentVolumeClaim { access_modes, ..self }
    }

    /// The claim as a template of a stateful set: no namespace and no
    /// owner.
    pub open spec fn template_renders(self, k: core_api::PersistentVolumeClaim) -> bool {
        &&& meta_renders(k.metadata, self.name, None, nonempty_map(self.labels.0), None, None)
        &&& k.spec matches Some(s) && claim_spec_renders(self, s)
    }

    fn claim_spec(
        access_modes: Vec<String>,
        storage_class: Option<String>,
        storage: String,
    ) -> (s: core_api::PersistentVolumeClaimSpec)
        ensures
            s.access_modes == Some(access_modes),
            s.storage_class_name == storage_class,
            s.resources matches Some(r) && r.requests matches Some(q) && q@ == Map::<
                Seq<char>,
                Seq<char>,
            >::empty().insert("storage"@, storage@),
    {
        let requests = StringMap::new().insert(text("storage"), storage);
        core_api::PersistentVolumeClaimSpec {
            access_modes: Some(access_modes),
            storage_class_name: storage_class,
            resources: Some(core_api::VolumeResourceRequirements { requests: Some(requests) }),
        }
    }

    /// The claim as a template of a stateful set.
    pub fn into_k8s_template(self) -> (k: core_api::PersistentVolumeClaim)
        ensures
            self.template_renders(k),
    {
        core_api::PersistentVolumeClaim {
            metadata: unnamespaced_meta(self.name, some_if_nonempty_map(self.labels.0), None),
            spec: Some(
                PersistentVolumeClaim::claim_spec(self.access_modes, self.storage_class, self.storage),
            ),
        }
    }
}

impl ChildResource for PersistentVolumeClaim {
    type K8sType = core_api::PersistentVolumeClaim;

    open spec fn object_name(&self) -> Seq<char> {
        self.name@
    }

    open spec fn renders_in(
        self,
        namespace: Seq<char>,
        owner_ref: Option<OwnerReference>,
        k: core_api::PersistentVolumeClaim,
    ) -> bool {
        &&& meta_renders(
            k.metadata,
            self.name,
            Some(namespace),
            nonempty_map(self.labels.0),
            None,
            owner_ref,
        )
        &&& k.spec matches Some(s) && claim_spec_renders(self, s)
    }

    fn name(&self) -> (r: &str) {
        self.name.as_str()
    }

    /// The API claim in `namespace`.
    fn into_k8s(self, namespace: &str, owner_ref: Option<OwnerReference>) -> (k:
        core_api::PersistentVolumeClaim) {
        core_api::PersistentVolumeClaim {
            metadata: namespaced_meta(
                self.name,
                namespace,
                some_if_nonempty_map(self.labels.0),
                None,
                owner_ref,
            ),
            spec: Some(
                PersistentVolumeClaim::claim_spec(self.access_modes, self.storage_class, self.storage),
            ),
        }
    }
}

} // verus!
