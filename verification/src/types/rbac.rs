//! Roles, cluster roles and their bindings.
use crate::api::meta::OwnerReference;
use crate::api::rbac_v1 as k8s;
use crate::text::{text, texts};
use crate::types::metadata::Labels;
use crate::types::render::{
    meta_renders, namespaced_meta, nonempty, nonempty_map, pushed, render_list, renders_list,
    some_if_nonempty, some_if_nonempty_map, some_text, texts_are, texts_match, unnamespaced_meta,
    ChildResource, ToK8s,
};
use vstd::prelude::*;

verus! {

/// The API group of the RBAC objects.
pub open spec fn rbac_group() -> Seq<char> {
    "rbac.authorization.k8s.io"@
}

/// A namespaced role.
#[derive(Clone, Debug)]
pub struct Role {
    pub name: String,
    pub labels: Labels,
    pub rules: Vec<PolicyRule>,
}

impl Role {
    /// A role named `name` granting nothing.
    pub fn new(name: &str) -> (r: Self)
        ensures
            r.name@ == name@,
            r.labels@ == Map::<Seq<char>, Seq<char>>::empty(),
            r.rules@.len() == 0,
    {
        Role { name: text(name), labels: Labels::new(), rules: Vec::new() }
    }

    /// Replaces the labels.
    pub fn labels(self, labels: Labels) -> (r: Self)
        ensures
            r == (Role { labels, ..self }),
    {
        Role { labels, ..self }
    }

    /// Adds a rule.
    pub fn rule(self, rule: PolicyRule) -> (r: Self)
        ensures
            r.rules@ == self.rules@.push(rule),
            r == (Role { rules: r.rules, ..self }),
    {
        let mut rules = self.rules;
        rules.push(rule);
        Role { rules, ..self }
    }
}

impl ChildResource for Role {
    type K8sType = k8s::Role;

    open spec fn object_name(&self) -> Seq<char> {
        self.name@
    }

    open spec fn renders_in(
        self,
        namespace: Seq<char>,
        owner_ref: Option<OwnerReference>,
        k: k8s::Role,
    ) -> bool {
        &&& meta_renders(
            k.metadata,
            self.name,
            Some(namespace),
            nonempty_map(self.labels.0),
            None,
            owner_ref,
        )
        &&& renders_list(self.rules@, k.rules)
    }

    fn name(&self) -> (r: &str) {
        self.name.as_str()
    }

    /// The API role in `namespace`; empty labels and rules are left out.
    fn into_k8s(self, namespace: &str, owner_ref: Option<OwnerReference>) -> (k: k8s::Role) {
        k8s::Role {
            metadata: namespaced_meta(
                self.name,
                namespace,
                some_if_nonempty_map(self.labels.0),
                None,
                owner_ref,
            ),
            rules: render_list(self.rules),
        }
    }
}

/// A cluster-wide role.
#[derive(Clone, Debug)]
pub struct ClusterRole {
    pub name: String,
    pub labels: Labels,
    pub rules: Vec<PolicyRule>,
}

impl ClusterRole {
    /// A cluster role named `name` granting nothing.
    pub fn new(name: &str) -> (r: Self)
        ensures
            r.name@ == name@,
            r.labels@ == Map::<Seq<char>, Seq<char>>::empty(),
            r.rules@.len() == 0,
    {
        ClusterRole { name: text(name), labels: Labels::new(), rules: Vec::new() }
    }

    /// Replaces the labels.
    pub fn labels(self, labels: Labels) -> (r: Self)
        ensures
            r == (ClusterRole { labels, ..self }),
    {
        ClusterRole { labels, ..self }
    }

    /// Adds a rule.
    pub fn rule(self, rule: PolicyRule) -> (r: Self)
        ensures
            r.rules@ == self.rules@.push(rule),
            r == (ClusterRole { rules: r.rules, ..self }),
    {
        let mut rules = self.rules;
        rules.push(rule);
        ClusterRole { rules, ..self }
    }

    /// The API cluster role, which has no namespace; empty labels and
    /// rules are left out.
    pub fn into_k8s(self, owner_ref: Option<OwnerReference>) -> (k: k8s::ClusterRole)
        ensures
            meta_renders(k.metadata, self.name, None, nonempty_map(self.labels.0), None, owner_ref),
            renders_list(self.rules@, k.rules),
    {
        k8s::ClusterRole {
            metadata: unnamespaced_meta(self.name, some_if_nonempty_map(self.labels.0), owner_ref),
            rules: render_list(self.rules),
        }
    }
}

/// The role a binding grants.
#[derive(Clone, Debug)]
pub struct RoleRef {
    pub kind: String,
    pub name: String,
    pub api_group: String,
}

impl RoleRef {
    /// The API reference to the same role.
    pub fn into_k8s(self) -> (k: k8s::RoleRef)
        ensures
            self.renders_as(k),
    {
        k8s::RoleRef { kind: self.kind, name: self.name, api_group: self.api_group }
    }
}

impl ToK8s for RoleRef {
    type K8s = k8s::RoleRef;

    open spec fn renders_as(self, k: k8s::RoleRef) -> bool {
        k == (k8s::RoleRef { kind: self.kind, name: self.name, api_group: self.api_group })
    }

    fn to_k8s(self) -> (k: k8s::RoleRef) {
        self.into_k8s()
    }
}

/// Who a binding grants a role to.
#[derive(Clone, Debug)]
pub struct Subject {
    pub kind: String,
    pub name: String,
    pub namespace: Option<String>,
    pub api_group: Option<String>,
}

impl Subject {
    /// The API subject with the same fields.
    pub fn into_k8s(self) -> (k: k8s::Subject)
        ensures
            self.renders_as(k),
    {
        k8s::Subject {
            kind: self.kind,
            name: self.name,
            namespace: self.namespace,
            api_group: self.api_group,
        }
    }
}

impl ToK8s for Subject {
    type K8s = k8s::Subject;

    open spec fn renders_as(self, k: k8s::Subject) -> bool {
        k == (k8s::Subject {
            kind: self.kind,
            name: self.name,
            namespace: self.namespace,
            api_group: self.api_group,
        })
    }

    fn to_k8s(self) -> (k: k8s::Subject) {
        self.into_k8s()
    }
}

/// A reference to a role of kind `kind` named `name`.
pub open spec fn is_role_ref(r: RoleRef, kind: Seq<char>, name: Seq<char>) -> bool {
    r.kind@ == kind && r.name@ == name && r.api_group@ == rbac_group()
}

/// A service account subject.
pub open spec fn is_service_account_subject(s: Subject, name: Seq<char>, namespace: Seq<char>) -> bool {
    s.kind@ == "ServiceAccount"@ && s.name@ == name && some_text(s.namespace, namespace)
        && s.api_group is None
}

/// A user or group subject.
pub open spec fn is_rbac_subject(s: Subject, kind: Seq<char>, name: Seq<char>) -> bool {
    s.kind@ == kind && s.name@ == name && s.namespace is None && some_text(s.api_group, rbac_group())
}

fn role_ref(kind: &str, name: &str) -> (r: RoleRef)
    ensures
        is_role_ref(r, kind@, name@),
{
    RoleRef { kind: text(kind), name: text(name), api_group: text("rbac.authorization.k8s.io") }
}

fn service_account_subject(name: &str, namespace: &str) -> (s: Subject)
    ensures
        is_service_account_subject(s, name@, namespace@),
{
    Subject {
        kind: text("ServiceAccount"),
        name: text(name),
        namespace: Some(text(namespace)),
        api_group: None,
    }
}

fn rbac_subject(kind: &str, name: &str) -> (s: Subject)
    ensures
        is_rbac_subject(s, kind@, name@),
{
    Subject {
        kind: text(kind),
        name: text(name),
        namespace: None,
        api_group: Some(text("rbac.authorization.k8s.io")),
    }
}

/// A binding of a role within a namespace.
#[derive(Clone, Debug)]
pub struct RoleBinding {
    pub name: String,
    pub labels: Labels,
    pub role_ref: RoleRef,
    pub subjects: Vec<Subject>,
}

impl RoleBinding {
    /// A binding named `name` of role `role_name`, to no one yet.
    pub fn new(name: &str, role_name: &str) -> (b: Self)
        ensures
            b.name@ == name@,
            b.labels@ == Map::<Seq<char>, Seq<char>>::empty(),
            is_role_ref(b.role_ref, "Role"@, role_name@),
            b.subjects@.len() == 0,
    {
        RoleBinding {
            name: text(name),
            labels: Labels::new(),
            role_ref: role_ref("Role", role_name),
            subjects: Vec::new(),
        }
    }

    /// A binding named `name` of cluster role `cluster_role` within the
    /// namespace, to no one yet.
    pub fn to_cluster_role(name: &str, cluster_role: &str) -> (b: Self)
        ensures
            b.name@ == name@,
            b.labels@ == Map::<Seq<char>, Seq<char>>::empty(),
            is_role_ref(b.role_ref, "ClusterRole"@, cluster_role@),
            b.subjects@.len() == 0,
    {
        RoleBinding {
            name: text(name),
            labels: Labels::new(),
            role_ref: role_ref("ClusterRole", cluster_role),
            subjects: Vec::new(),
        }
    }

    /// Replaces the labels.
    pub fn labels(self, labels: Labels) -> (b: Self)
        ensures
            b == (RoleBinding { labels, ..self }),
    {
        RoleBinding { labels, ..self }
    }

    /// Grants the role to service account `name` of `namespace`.
    pub fn service_account(self, name: &str, namespace: &str) -> (b: Self)
        ensures
            pushed(self.subjects@, b.subjects@),
            is_service_account_subject(b.subjects@.last(), name@, namespace@),
            b == (RoleBinding { subjects: b.subjects, ..self }),
    {
        let mut subjects = self.subjects;
        subjects.push(service_account_subject(name, namespace));
        RoleBinding { subjects, ..self }
    }

    /// Grants the role to user `name`.
    pub fn user(self, name: &str) -> (b: Self)
        ensures
            pushed(self.subjects@, b.subjects@),
            is_rbac_subject(b.subjects@.last(), "User"@, name@),
            b == (RoleBinding { subjects: b.subjects, ..self }),
    {
        let mut subjects = self.subjects;
        subjects.push(rbac_subject("User", name));
        RoleBinding { subjects, ..self }
    }

    /// Grants the role to group `name`.
    pub fn group(self, name: &str) -> (b: Self)
        ensures
            pushed(self.subjects@, b.subjects@),
            is_rbac_subject(b.subjects@.last(), "Group"@, name@),
            b == (RoleBinding { subjects: b.subjects, ..self }),
    {
        let mut subjects = self.subjects;
        subjects.push(rbac_subject("Group", name));
        RoleBinding { subjects, ..self }
    }
}

impl ChildResource for RoleBinding {
    type K8sType = k8s::RoleBinding;

    open spec fn object_name(&self) -> Seq<char> {
        self.name@
    }

    open spec fn renders_in(
        self,
        namespace: Seq<char>,
        owner_ref: Option<OwnerReference>,
        k: k8s::RoleBinding,
    ) -> bool {
        &&& meta_renders(
            k.metadata,
            self.name,
            Some(namespace),
            nonempty_map(self.labels.0),
            None,
            owner_ref,
        )
        &&& self.role_ref.renders_as(k.role_ref)
        &&& renders_list(self.subjects@, k.subjects)
    }

    fn name(&self) -> (r: &str) {
        self.name.as_str()
    }

    /// The API binding in `namespace`; empty labels and subjects are left
    /// out.
    fn into_k8s(self, namespace: &str, owner_ref: Option<OwnerReference>) -> (k: k8s::RoleBinding) {
        k8s::RoleBinding {
            metadata: namespaced_meta(
                self.name,
                namespace,
                some_if_nonempty_map(self.labels.0),
                None,
                owner_ref,
            ),
            role_ref: self.role_ref.into_k8s(),
            subjects: render_list(self.subjects),
        }
    }
}

/// A cluster-wide binding of a cluster role.
#[derive(Clone, Debug)]
pub struct ClusterRoleBinding {
    pub name: String,
    pub labels: Labels,
    pub role_ref: RoleRef,
    pub subjects: Vec<Subject>,
}

impl ClusterRoleBinding {
    /// A binding named `name` of cluster role `cluster_role`, to no one
    /// yet.
    pub fn new(name: &str, cluster_role: &str) -> (b: Self)
        ensures
            b.name@ == name@,
            b.labels@ == Map::<Seq<char>, Seq<char>>::empty(),
            is_role_ref(b.role_ref, "ClusterRole"@, cluster_role@),
            b.subjects@.len() == 0,
    {
        ClusterRoleBinding {
            name: text(name),
            labels: Labels::new(),
            role_ref: role_ref("ClusterRole", cluster_role),
            subjects: Vec::new(),
        }
    }

    /// Replaces the labels.
    pub fn labels(self, labels: Labels) -> (b: Self)
        ensures
            b == (ClusterRoleBinding { labels, ..self }),
    {
        ClusterRoleBinding { labels, ..self }
    }

    /// Grants the role to service account `name` of `namespace`.
    pub fn service_account(self, name: &str, namespace: &str) -> (b: Self)
        ensures
            pushed(self.subjects@, b.subjects@),
            is_service_account_subject(b.subjects@.last(), name@, namespace@),
            b == (ClusterRoleBinding { subjects: b.subjects, ..self }),
    {
        let mut subjects = self.subjects;
        subjects.push(service_account_subject(name, namespace));
        ClusterRoleBinding { subjects, ..self }
    }

    /// Grants the role to user `name`.
    pub fn user(self, name: &str) -> (b: Self)
        ensures
            pushed(self.subjects@, b.subjects@),
            is_rbac_subject(b.subjects@.last(), "User"@, name@),
            b == (ClusterRoleBinding { subjects: b.subjects, ..self }),
    {
        let mut subjects = self.subjects;
        subjects.push(rbac_subject("User", name));
        ClusterRoleBinding { subjects, ..self }
    }

    /// Grants the role to group `name`.
    pub fn group(self, name: &str) -> (b: Self)
        ensures
            pushed(self.subjects@, b.subjects@),
            is_rbac_subject(b.subjects@.last(), "Group"@, name@),
            b == (ClusterRoleBinding { subjects: b.subjects, ..self }),
    {
        let mut subjects = self.subjects;
        subjects.push(rbac_subject("Group", name));
        ClusterRoleBinding { subjects, ..self }
    }

    /// The API binding, which has no namespace; empty labels and subjects
    /// are left out.
    pub fn into_k8s(self, owner_ref: Option<OwnerReference>) -> (k: k8s::ClusterRoleBinding)
        ensures
            meta_renders(k.metadata, self.name, None, nonempty_map(self.labels.0), None, owner_ref),
            self.role_ref.renders_as(k.role_ref),
            renders_list(self.subjects@, k.subjects),
    {
        k8s::ClusterRoleBinding {
            metadata: unnamespaced_meta(self.name, some_if_nonempty_map(self.labels.0), owner_ref),
            role_ref: self.role_ref.into_k8s(),
            subjects: render_list(self.subjects),
        }
    }
}

/// What a role grants: verbs on resources of API groups.
#[derive(Clone, Debug)]
pub struct PolicyRule {
    pub api_groups: Vec<String>,
    pub resources: Vec<String>,
    pub verbs: Vec<String>,
    pub resource_names: Vec<String>,
}

impl PolicyRule {
    /// A rule granting nothing.
    pub fn new() -> (r: Self)
        ensures
            r.api_groups@.len() == 0,
            r.resources@.len() == 0,
            r.verbs@.len() == 0,
            r.resource_names@.len() == 0,
    {
        PolicyRule {
            api_groups: Vec::new(),
            resources: Vec::new(),
            verbs: Vec::new(),
            resource_names: Vec::new(),
        }
    }

    /// Replaces the API groups.
    pub fn api_groups(self, groups: Vec<&str>) -> (r: Self)
        ensures
            texts_match(r.api_groups@, groups@),
            r == (PolicyRule { api_groups: r.api_groups, ..self }),
    {
        PolicyRule { api_groups: texts(groups), ..self }
    }

    /// Adds the core API group, named by the empty string.
    pub fn core_api(self) -> (r: Self)
        ensures
            pushed(self.api_groups@, r.api_groups@),
            r.api_groups@.last()@ == ""@,
            r == (PolicyRule { api_groups: r.api_groups, ..self }),
    {
        let mut api_groups = self.api_groups;
        api_groups.push(text(""));
        PolicyRule { api_groups, ..self }
    }

    /// Adds the `apps` API group.
    pub fn apps_api(self) -> (r: Self)
        ensures
            pushed(self.api_groups@, r.api_groups@),
            r.api_groups@.last()@ == "apps"@,
            r == (PolicyRule { api_groups: r.api_groups, ..self }),
    {
        let mut api_groups = self.api_groups;
        api_groups.push(text("apps"));
        PolicyRule { api_groups, ..self }
    }

    /// Replaces the resources.
    pub fn resources(self, resources: Vec<&str>) -> (r: Self)
        ensures
            texts_match(r.resources@, resources@),
            r == (PolicyRule { resources: r.resources, ..self }),
    {
        PolicyRule { resources: texts(resources), ..self }
    }

    /// Replaces the verbs.
    pub fn verbs(self, verbs: Vec<&str>) -> (r: Self)
        ensures
            texts_match(r.verbs@, verbs@),
            r == (PolicyRule { verbs: r.verbs, ..self }),
    {
        PolicyRule { verbs: texts(verbs), ..self }
    }

    /// Grants every verb.
    pub fn all_verbs(self) -> (r: Self)
        ensures
            texts_are(r.verbs@, seq!["*"@]),
            r == (PolicyRule { verbs: r.verbs, ..self }),
    {
        let mut verbs = Vec::new();
        verbs.push(text("*"));
        PolicyRule { verbs, ..self }
    }

    /// Grants reading: `get`, `list` and `watch`.
    pub fn read_only(self) -> (r: Self)
        ensures
            texts_are(r.verbs@, seq!["get"@, "list"@, "watch"@]),
            r == (PolicyRule { verbs: r.verbs, ..self }),
    {
        let mut verbs = Vec::new();
        verbs.push(text("get"));
        verbs.push(text("list"));
        verbs.push(text("watch"));
        PolicyRule { verbs, ..self }
    }

    /// Grants reading and writing: `get`, `list`, `watch`, `create`,
    /// `update`, `patch` and `delete`.
    pub fn read_write(self) -> (r: Self)
        ensures
            texts_are(
                r.verbs@,
                seq!["get"@, "list"@, "watch"@, "create"@, "update"@, "patch"@, "delete"@],
            ),
            r == (PolicyRule { verbs: r.verbs, ..self }),
    {
        let mut verbs = Vec::new();
        verbs.push(text("get"));
        verbs.push(text("list"));
        verbs.push(text("watch"));
        verbs.push(text("create"));
        verbs.push(text("update"));
        verbs.push(text("patch"));
        verbs.push(text("delete"));
        PolicyRule { verbs, ..self }
    }

    /// Restricts the rule to the named resources.
    pub fn resource_names(self, names: Vec<&str>) -> (r: Self)
        ensures
            texts_match(r.resource_names@, names@),
            r == (PolicyRule { resource_names: r.resource_names, ..self }),
    {
        PolicyRule { resource_names: texts(names), ..self }
    }

    /// The API rule; the verbs are always given, other empty lists are
    /// left out.
    pub fn into_k8s(self) -> (k: k8s::PolicyRule)
        ensures
            self.renders_as(k),
    {
        k8s::PolicyRule {
            api_groups: some_if_nonempty(self.api_groups),
            resources: some_if_nonempty(self.resources),
            verbs: self.verbs,
            resource_names: some_if_nonempty(self.resource_names),
        }
    }
}

impl Default for PolicyRule {
    fn default() -> (r: Self)
        ensures
            r.api_groups@.len() == 0,
            r.resources@.len() == 0,
            r.verbs@.len() == 0,
            r.resource_names@.len() == 0,
    {
        PolicyRule::new()
    }
}

impl ToK8s for PolicyRule {
    type K8s = k8s::PolicyRule;

    open spec fn renders_as(self, k: k8s::PolicyRule) -> bool {
        k == (k8s::PolicyRule {
            api_groups: nonempty(self.api_groups),
            resources: nonempty(self.resources),
            verbs: self.verbs,
            resource_names: nonempty(self.resource_names),
        })
    }

    fn to_k8s(self) -> (k: k8s::PolicyRule) {
        self.into_k8s()
    }
}

} // verus!
