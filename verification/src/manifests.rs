//! The Kubernetes resources that run the operator, as plain values.
use vstd::prelude::*;
use vstd::string::*;

use crate::labels::{
    insert_label, insert_label_spec, keys_unique, label_keys, label_map, law_insert_label_is_map_insert,
    lemma_label_map_lookup, pairs_view, strings_of,
    strings_view, Labels,
};

verus! {

/// Name shared by the operator's service account, roles, deployment and service.
pub open spec fn operator_name() -> Seq<char> {
    "wasmcloud-operator"@
}

pub struct ObjectMetaModel {
    pub name: String,
    pub namespace: Option<String>,
    pub labels: Labels,
}

pub struct NamespaceManifest {
    pub metadata: ObjectMetaModel,
}

pub struct ServiceAccountManifest {
    pub metadata: ObjectMetaModel,
}

pub struct PolicyRuleModel {
    pub api_groups: Vec<String>,
    pub resources: Vec<String>,
    pub verbs: Vec<String>,
}

pub struct ClusterRoleManifest {
    pub metadata: ObjectMetaModel,
    pub rules: Vec<PolicyRuleModel>,
}

pub struct RoleRefModel {
    pub api_group: String,
    pub kind: String,
    pub name: String,
}

pub struct SubjectModel {
    pub kind: String,
    pub name: String,
    pub namespace: String,
}

pub struct ClusterRoleBindingManifest {
    pub metadata: ObjectMetaModel,
    pub role_ref: RoleRefModel,
    pub subjects: Vec<SubjectModel>,
}

pub struct ContainerPortModel {
    pub container_port: i32,
    pub name: String,
    pub protocol: String,
}

pub struct ResourceAmounts {
    pub cpu: String,
    pub memory: String,
}

pub struct ContainerModel {
    pub name: String,
    pub image: String,
    pub ports: Vec<ContainerPortModel>,
    pub requests: ResourceAmounts,
    pub limits: ResourceAmounts,
}

pub struct DeploymentManifest {
    pub metadata: ObjectMetaModel,
    pub replicas: i32,
    pub selector: Labels,
    pub template_labels: Labels,
    pub service_account: String,
    pub containers: Vec<ContainerModel>,
}

pub struct ServicePortModel {
    pub name: String,
    pub port: i32,
    pub target_port: i32,
    pub protocol: String,
}

pub struct ServiceManifest {
    pub metadata: ObjectMetaModel,
    pub selector: Labels,
    pub ports: Vec<ServicePortModel>,
}

/// What the operator is installed with: where, how long to wait, and which image.
pub struct InstallPlan {
    pub namespace: String,
    pub timeout_secs: u64,
    pub operator_image: String,
}

// ---------------------------------------------------------------------------
// Specifications of the manifests
// ---------------------------------------------------------------------------

pub open spec fn opt_view(o: Option<String>) -> Option<Seq<char>> {
    match o {
        Some(s) => Some(s@),
        None => None,
    }
}

/// Labels that mark every operator resource.
pub open spec fn operator_labels_spec() -> Seq<(Seq<char>, Seq<char>)> {
    seq![
        ("app.kubernetes.io/name"@, "wasmcloud-operator"@),
        ("app.kubernetes.io/component"@, "operator"@),
        ("app.kubernetes.io/part-of"@, "wasmcloud"@),
        ("app.kubernetes.io/managed-by"@, "wasmcloud-installer"@),
    ]
}

/// The label that selects the operator's pods.
pub open spec fn app_selector_spec() -> Seq<(Seq<char>, Seq<char>)> {
    seq![("app"@, "wasmcloud-operator"@)]
}

/// Labels of the deployment and its pods: the common labels with `app` set.
pub open spec fn deployment_labels_spec() -> Seq<(Seq<char>, Seq<char>)> {
    insert_label_spec(operator_labels_spec(), "app"@, "wasmcloud-operator"@)
}

/// Metadata as (name, namespace, labels).
pub type MetaView = (Seq<char>, Option<Seq<char>>, Seq<(Seq<char>, Seq<char>)>);

pub open spec fn namespace_meta_spec(namespace: Seq<char>) -> MetaView {
    (namespace, None, operator_labels_spec())
}

pub open spec fn service_account_meta_spec(namespace: Seq<char>) -> MetaView {
    (operator_name(), Some(namespace), operator_labels_spec())
}

/// Metadata of the cluster-wide resources: the cluster role and its binding.
pub open spec fn cluster_meta_spec() -> MetaView {
    (operator_name(), None, operator_labels_spec())
}

pub open spec fn deployment_meta_spec(namespace: Seq<char>) -> MetaView {
    (operator_name(), Some(namespace), deployment_labels_spec())
}

pub open spec fn service_meta_spec(namespace: Seq<char>) -> MetaView {
    (operator_name(), Some(namespace), operator_labels_spec())
}

/// The binding refers to the cluster role: (API group, kind, name).
pub open spec fn binding_role_ref_spec() -> (Seq<char>, Seq<char>, Seq<char>) {
    ("rbac.authorization.k8s.io"@, "ClusterRole"@, operator_name())
}

/// The binding's subjects: (kind, name, namespace).
pub open spec fn binding_subjects_spec(namespace: Seq<char>) -> Seq<(Seq<char>, Seq<char>, Seq<char>)> {
    seq![("ServiceAccount"@, operator_name(), namespace)]
}

/// The port the operator container listens on.
pub open spec fn operator_port() -> int {
    8080
}

/// The operator container's ports: (port, name, protocol).
pub open spec fn container_ports_spec() -> Seq<(int, Seq<char>, Seq<char>)> {
    seq![(operator_port(), "http"@, "TCP"@)]
}

/// The service's ports: (name, port, target port, protocol).
pub open spec fn service_ports_spec() -> Seq<(Seq<char>, int, int, Seq<char>)> {
    seq![("http"@, 80, operator_port(), "TCP"@)]
}

pub open spec fn role_ref_view(r: RoleRefModel) -> (Seq<char>, Seq<char>, Seq<char>) {
    (r.api_group@, r.kind@, r.name@)
}

pub open spec fn subjects_view(s: Seq<SubjectModel>) -> Seq<(Seq<char>, Seq<char>, Seq<char>)> {
    Seq::new(s.len(), |i: int| (s[i].kind@, s[i].name@, s[i].namespace@))
}

pub open spec fn container_ports_view(ps: Seq<ContainerPortModel>) -> Seq<(int, Seq<char>, Seq<char>)> {
    Seq::new(ps.len(), |i: int| (ps[i].container_port as int, ps[i].name@, ps[i].protocol@))
}

pub open spec fn service_ports_view(ps: Seq<ServicePortModel>) -> Seq<(Seq<char>, int, int, Seq<char>)> {
    Seq::new(ps.len(), |i: int| (ps[i].name@, ps[i].port as int, ps[i].target_port as int, ps[i].protocol@))
}

pub open spec fn meta_view(m: ObjectMetaModel) -> MetaView {
    (m.name@, opt_view(m.namespace), pairs_view(m.labels@))
}

pub open spec fn rule_view(r: PolicyRuleModel) -> (Seq<Seq<char>>, Seq<Seq<char>>, Seq<Seq<char>>) {
    (strings_view(r.api_groups@), strings_view(r.resources@), strings_view(r.verbs@))
}

pub open spec fn rules_view(rules: Seq<PolicyRuleModel>) -> Seq<
    (Seq<Seq<char>>, Seq<Seq<char>>, Seq<Seq<char>>),
> {
    Seq::new(rules.len(), |i: int| rule_view(rules[i]))
}

/// Every verb the operator may use on the resources it manages.
pub open spec fn all_verbs_spec() -> Seq<Seq<char>> {
    seq!["get"@, "list"@, "watch"@, "create"@, "update"@, "patch"@, "delete"@]
}

/// The permissions granted to the operator, rule by rule.
pub open spec fn operator_rules_spec() -> Seq<(Seq<Seq<char>>, Seq<Seq<char>>, Seq<Seq<char>>)> {
    seq![
        (
            seq![""@],
            seq![
                "pods"@,
                "services"@,
                "configmaps"@,
                "secrets"@,
                "events"@,
                "namespaces"@,
                "nodes"@,
                "serviceaccounts"@,
            ],
            all_verbs_spec(),
        ),
        (
            seq!["apps"@],
            seq!["deployments"@, "daemonsets"@, "replicasets"@, "statefulsets"@],
            all_verbs_spec(),
        ),
        (seq!["apiextensions.k8s.io"@], seq!["customresourcedefinitions"@], all_verbs_spec()),
        (
            seq!["runtime.wasmcloud.dev"@],
            seq!["wasmcloudhostconfigs"@, "wasmcloudapplications"@],
            all_verbs_spec(),
        ),
        (
            seq!["runtime.wasmcloud.dev"@],
            seq!["wasmcloudhostconfigs/status"@, "wasmcloudapplications/status"@],
            seq!["get"@, "update"@, "patch"@],
        ),
        (
            seq!["rbac.authorization.k8s.io"@],
            seq!["clusterroles"@, "clusterrolebindings"@, "roles"@, "rolebindings"@],
            all_verbs_spec(),
        ),
        (seq!["coordination.k8s.io"@], seq!["leases"@], all_verbs_spec()),
        (seq!["apiregistration.k8s.io"@], seq!["apiservices"@], all_verbs_spec()),
        (
            seq!["admissionregistration.k8s.io"@],
            seq!["mutatingwebhookconfigurations"@, "validatingwebhookconfigurations"@],
            all_verbs_spec(),
        ),
    ]
}

// ---------------------------------------------------------------------------
// Building blocks
// ---------------------------------------------------------------------------

fn operator_name_string() -> (s: String)
    ensures
        s@ == operator_name(),
{
    String::from_str("wasmcloud-operator")
}

fn all_verbs() -> (v: Vec<String>)
    ensures
        strings_view(v@) == all_verbs_spec(),
{
    let v = strings_of(&vec!["get", "list", "watch", "create", "update", "patch", "delete"]);
    assert(strings_view(v@) =~= all_verbs_spec());
    v
}

fn rule(groups: Vec<&str>, resources: Vec<&str>, verbs: Vec<String>) -> (r: PolicyRuleModel)
    ensures
        rule_view(r) == (
            Seq::new(groups@.len(), |i: int| groups@[i]@),
            Seq::new(resources@.len(), |i: int| resources@[i]@),
            strings_view(verbs@),
        ),
{
    PolicyRuleModel { api_groups: strings_of(&groups), resources: strings_of(&resources), verbs }
}

fn app_selector() -> (l: Labels)
    ensures
        pairs_view(l@) == app_selector_spec(),
{
    let l = vec![(String::from_str("app"), String::from_str("wasmcloud-operator"))];
    assert(pairs_view(l@) =~= app_selector_spec());
    l
}

/// The labels `operator_labels_spec` lists have pairwise different keys, and none is `app`.
pub proof fn lemma_operator_label_keys()
    ensures
        keys_unique(operator_labels_spec()),
        first_index_of_app() < 0,
{
    reveal_strlit("app.kubernetes.io/name");
    reveal_strlit("app.kubernetes.io/component");
    reveal_strlit("app.kubernetes.io/part-of");
    reveal_strlit("app.kubernetes.io/managed-by");
    reveal_strlit("app");
    let labels = operator_labels_spec();
    let keys = label_keys(labels);
    crate::config::lemma_first_index_of(keys, "app"@);
    assert(keys[0].len() != 3 && keys[1].len() != 3 && keys[2].len() != 3 && keys[3].len() != 3);
}

pub open spec fn first_index_of_app() -> int {
    crate::config::first_index_of(label_keys(operator_labels_spec()), "app"@)
}

/// The deployment's labels are the common labels followed by `app`.
pub proof fn lemma_deployment_labels()
    ensures
        deployment_labels_spec() == operator_labels_spec().push(("app"@, "wasmcloud-operator"@)),
        keys_unique(deployment_labels_spec()),
{
    lemma_operator_label_keys();
    law_insert_label_is_map_insert(operator_labels_spec(), "app"@, "wasmcloud-operator"@);
}

impl InstallPlan {
    /// Create a new installer plan.
    pub fn new(namespace: &str, timeout_seconds: u64, operator_image: &str) -> (p: InstallPlan)
        ensures
            p.namespace@ == namespace@,
            p.timeout_secs == timeout_seconds,
            p.operator_image@ == operator_image@,
    {
        InstallPlan {
            namespace: String::from_str(namespace),
            timeout_secs: timeout_seconds,
            operator_image: String::from_str(operator_image),
        }
    }

    /// Get common labels for all resources
    pub fn common_labels(&self) -> (l: Labels)
        ensures
            pairs_view(l@) == operator_labels_spec(),
            keys_unique(pairs_view(l@)),
    {
        proof {
            lemma_operator_label_keys();
        }
        let l = vec![
            (String::from_str("app.kubernetes.io/name"), String::from_str("wasmcloud-operator")),
            (String::from_str("app.kubernetes.io/component"), String::from_str("operator")),
            (String::from_str("app.kubernetes.io/part-of"), String::from_str("wasmcloud")),
            (
                String::from_str("app.kubernetes.io/managed-by"),
                String::from_str("wasmcloud-installer"),
            ),
        ];
        assert(pairs_view(l@) =~= operator_labels_spec());
        l
    }

    /// Create namespace manifest
    pub fn create_namespace_manifest(&self) -> (m: NamespaceManifest)
        ensures
            meta_view(m.metadata) == namespace_meta_spec(self.namespace@),
    {
        NamespaceManifest {
            metadata: ObjectMetaModel {
                name: self.namespace.clone(),
                namespace: None,
                labels: self.common_labels(),
            },
        }
    }

    /// Create service account manifest
    pub fn create_service_account_manifest(&self) -> (m: ServiceAccountManifest)
        ensures
            meta_view(m.metadata) == service_account_meta_spec(self.namespace@),
    {
        ServiceAccountManifest {
            metadata: ObjectMetaModel {
                name: operator_name_string(),
                namespace: Some(self.namespace.clone()),
                labels: self.common_labels(),
            },
        }
    }

    /// Create cluster role manifest
    pub fn create_cluster_role_manifest(&self) -> (m: ClusterRoleManifest)
        ensures
            meta_view(m.metadata) == cluster_meta_spec(),
            rules_view(m.rules@) == operator_rules_spec(),
    {
        let rules = vec![
            // Core resources
            rule(
                vec![""],
                vec![
                    "pods",
                    "services",
                    "configmaps",
                    "secrets",
                    "events",
                    "namespaces",
                    "nodes",
                    "serviceaccounts",
                ],
                all_verbs(),
            ),
            // Apps resources
            rule(
                vec!["apps"],
                vec!["deployments", "daemonsets", "replicasets", "statefulsets"],
                all_verbs(),
            ),
            // CRD resources - needed for the operator to manage its own CRDs
            rule(vec!["apiextensions.k8s.io"], vec!["customresourcedefinitions"], all_verbs()),
            // wasmCloud CRD resources
            rule(
                vec!["runtime.wasmcloud.dev"],
                vec!["wasmcloudhostconfigs", "wasmcloudapplications"],
                all_verbs(),
            ),
            // wasmCloud CRD status subresources
            rule(
                vec!["runtime.wasmcloud.dev"],
                vec!["wasmcloudhostconfigs/status", "wasmcloudapplications/status"],
                strings_of(&vec!["get", "update", "patch"]),
            ),
            // RBAC resources
            rule(
                vec!["rbac.authorization.k8s.io"],
                vec!["clusterroles", "clusterrolebindings", "roles", "rolebindings"],
                all_verbs(),
            ),
            // Coordination resources (for leader election)
            rule(vec!["coordination.k8s.io"], vec!["leases"], all_verbs()),
            // API registration resources (for aggregated APIs)
            rule(vec!["apiregistration.k8s.io"], vec!["apiservices"], all_verbs()),
            // Admission webhooks
            rule(
                vec!["admissionregistration.k8s.io"],
                vec!["mutatingwebhookconfigurations", "validatingwebhookconfigurations"],
                all_verbs(),
            ),
        ];
        let ghost spec_rules = operator_rules_spec();
        assert(rules_view(rules@)[0] =~= spec_rules[0]);
        assert(rules_view(rules@)[1] =~= spec_rules[1]);
        assert(rules_view(rules@)[2] =~= spec_rules[2]);
        assert(rules_view(rules@)[3] =~= spec_rules[3]);
        assert(rules_view(rules@)[4] =~= spec_rules[4]);
        assert(rules_view(rules@)[5] =~= spec_rules[5]);
        assert(rules_view(rules@)[6] =~= spec_rules[6]);
        assert(rules_view(rules@)[7] =~= spec_rules[7]);
        assert(rules_view(rules@)[8] =~= spec_rules[8]);
        assert(rules_view(rules@) =~= spec_rules);
        ClusterRoleManifest {
            metadata: ObjectMetaModel {
                name: operator_name_string(),
                namespace: None,
                labels: self.common_labels(),
            },
            rules,
        }
    }

    /// Create cluster role binding manifest
    pub fn create_cluster_role_binding_manifest(&self) -> (m: ClusterRoleBindingManifest)
        ensures
            meta_view(m.metadata) == cluster_meta_spec(),
            role_ref_view(m.role_ref) == binding_role_ref_spec(),
            subjects_view(m.subjects@) == binding_subjects_spec(self.namespace@),
    {
        let m = ClusterRoleBindingManifest {
            metadata: ObjectMetaModel {
                name: operator_name_string(),
                namespace: None,
                labels: self.common_labels(),
            },
            role_ref: RoleRefModel {
                api_group: String::from_str("rbac.authorization.k8s.io"),
                kind: String::from_str("ClusterRole"),
                name: operator_name_string(),
            },
            subjects: vec![
                SubjectModel {
                    kind: String::from_str("ServiceAccount"),
                    name: operator_name_string(),
                    namespace: self.namespace.clone(),
                },
            ],
        };
        assert(subjects_view(m.subjects@) =~= binding_subjects_spec(self.namespace@));
        m
    }

    /// Create deployment manifest: one replica of the operator image, serving HTTP on
    /// port 8080, requesting 100m CPU and 128Mi memory and limited to 200m CPU and 256Mi.
    pub fn create_deployment_manifest(&self) -> (m: DeploymentManifest)
        ensures
            meta_view(m.metadata) == deployment_meta_spec(self.namespace@),
            keys_unique(pairs_view(m.metadata.labels@)),
            keys_unique(pairs_view(m.template_labels@)),
            m.replicas == 1,
            pairs_view(m.selector@) == app_selector_spec(),
            pairs_view(m.template_labels@) == deployment_labels_spec(),
            m.service_account@ == operator_name(),
            m.containers@.len() == 1,
            m.containers@[0].name@ == "operator"@,
            m.containers@[0].image@ == self.operator_image@,
            container_ports_view(m.containers@[0].ports@) == container_ports_spec(),
            m.containers@[0].requests.cpu@ == "100m"@,
            m.containers@[0].requests.memory@ == "128Mi"@,
            m.containers@[0].limits.cpu@ == "200m"@,
            m.containers@[0].limits.memory@ == "256Mi"@,
    {
        proof {
            lemma_deployment_labels();
        }
        let mut labels = self.common_labels();
        insert_label(&mut labels, String::from_str("app"), String::from_str("wasmcloud-operator"));
        let mut template_labels = self.common_labels();
        insert_label(
            &mut template_labels,
            String::from_str("app"),
            String::from_str("wasmcloud-operator"),
        );
        let m = DeploymentManifest {
            metadata: ObjectMetaModel {
                name: operator_name_string(),
                namespace: Some(self.namespace.clone()),
                labels,
            },
            replicas: 1,
            selector: app_selector(),
            template_labels,
            service_account: operator_name_string(),
            containers: vec![
                ContainerModel {
                    name: String::from_str("operator"),
                    image: self.operator_image.clone(),
                    ports: vec![
                        ContainerPortModel {
                            container_port: 8080,
                            name: String::from_str("http"),
                            protocol: String::from_str("TCP"),
                        },
                    ],
                    requests: ResourceAmounts {
                        cpu: String::from_str("100m"),
                        memory: String::from_str("128Mi"),
                    },
                    limits: ResourceAmounts {
                        cpu: String::from_str("200m"),
                        memory: String::from_str("256Mi"),
                    },
                },
            ],
        };
        assert(container_ports_view(m.containers@[0].ports@) =~= container_ports_spec());
        m
    }

    /// Create service manifest
    pub fn create_service_manifest(&self) -> (m: ServiceManifest)
        ensures
            meta_view(m.metadata) == service_meta_spec(self.namespace@),
            pairs_view(m.selector@) == app_selector_spec(),
            service_ports_view(m.ports@) == service_ports_spec(),
    {
        let m = ServiceManifest {
            metadata: ObjectMetaModel {
                name: operator_name_string(),
                namespace: Some(self.namespace.clone()),
                labels: self.common_labels(),
            },
            selector: app_selector(),
            ports: vec![
                ServicePortModel {
                    name: String::from_str("http"),
                    port: 80,
                    target_port: 8080,
                    protocol: String::from_str("TCP"),
                },
            ],
        };
        assert(service_ports_view(m.ports@) =~= service_ports_spec());
        m
    }
}

/// The cluster role binding grants the operator's cluster role to the operator's
/// service account, in the namespace the operator is installed into.
pub proof fn law_binding_grants_role_to_service_account(namespace: Seq<char>)
    ensures
        binding_role_ref_spec().1 == "ClusterRole"@,
        binding_role_ref_spec().2 == cluster_meta_spec().0,
        binding_subjects_spec(namespace).len() == 1,
        binding_subjects_spec(namespace)[0].0 == "ServiceAccount"@,
        binding_subjects_spec(namespace)[0].1 == service_account_meta_spec(namespace).0,
        Some(binding_subjects_spec(namespace)[0].2) == service_account_meta_spec(namespace).1,
{
}

/// The operator's pods run as the operator's service account, in the same namespace.
pub proof fn law_pods_run_as_service_account(namespace: Seq<char>)
    ensures
        service_account_meta_spec(namespace).0 == operator_name(),
        deployment_meta_spec(namespace).1 == service_account_meta_spec(namespace).1,
{
}

/// Some rule grants `verb` on `resource` of API group `group`.
pub open spec fn grants(
    rules: Seq<(Seq<Seq<char>>, Seq<Seq<char>>, Seq<Seq<char>>)>,
    group: Seq<char>,
    resource: Seq<char>,
    verb: Seq<char>,
) -> bool {
    exists|i: int|
        0 <= i < rules.len() && (#[trigger] rules[i]).0.contains(group) && rules[i].1.contains(
            resource,
        ) && rules[i].2.contains(verb)
}

/// The rules grant every verb (get, list, watch, create, update, patch, delete) on
/// `resource` of `group`.
pub open spec fn grants_all_verbs(
    rules: Seq<(Seq<Seq<char>>, Seq<Seq<char>>, Seq<Seq<char>>)>,
    group: Seq<char>,
    resource: Seq<char>,
) -> bool {
    grants(rules, group, resource, "get"@) &&
    grants(rules, group, resource, "list"@) &&
    grants(rules, group, resource, "watch"@) &&
    grants(rules, group, resource, "create"@) &&
    grants(rules, group, resource, "update"@) &&
    grants(rules, group, resource, "patch"@) &&
    grants(rules, group, resource, "delete"@)
}

proof fn lemma_rule_grants(
    rules: Seq<(Seq<Seq<char>>, Seq<Seq<char>>, Seq<Seq<char>>)>,
    i: int,
    a: int,
    b: int,
    c: int,
)
    requires
        0 <= i < rules.len(),
        0 <= a < rules[i].0.len(),
        0 <= b < rules[i].1.len(),
        0 <= c < rules[i].2.len(),
    ensures
        grants(rules, rules[i].0[a], rules[i].1[b], rules[i].2[c]),
{
    assert(rules[i].0.contains(rules[i].0[a]));
    assert(rules[i].1.contains(rules[i].1[b]));
    assert(rules[i].2.contains(rules[i].2[c]));
}

proof fn lemma_rule_grants_all_verbs(
    rules: Seq<(Seq<Seq<char>>, Seq<Seq<char>>, Seq<Seq<char>>)>,
    i: int,
    a: int,
    b: int,
)
    requires
        0 <= i < rules.len(),
        0 <= a < rules[i].0.len(),
        0 <= b < rules[i].1.len(),
        rules[i].2 == seq!["get"@, "list"@, "watch"@, "create"@, "update"@, "patch"@, "delete"@],
    ensures
        grants_all_verbs(rules, rules[i].0[a], rules[i].1[b]),
{
    lemma_rule_grants(rules, i, a, b, 0);
    lemma_rule_grants(rules, i, a, b, 1);
    lemma_rule_grants(rules, i, a, b, 2);
    lemma_rule_grants(rules, i, a, b, 3);
    lemma_rule_grants(rules, i, a, b, 4);
    lemma_rule_grants(rules, i, a, b, 5);
    lemma_rule_grants(rules, i, a, b, 6);
}

/// The operator's cluster role grants every verb on each kind of resource the operator
/// manages (core workloads and configuration, apps workloads, CRDs, the wasmCloud CRDs,
/// RBAC objects, leases, API services and admission webhooks), and get, update and patch
/// on the status of the wasmCloud CRDs.
pub proof fn law_cluster_role_grants_managed_resources()
    ensures
        grants_all_verbs(operator_rules_spec(), ""@, "pods"@),
        grants_all_verbs(operator_rules_spec(), ""@, "services"@),
        grants_all_verbs(operator_rules_spec(), ""@, "configmaps"@),
        grants_all_verbs(operator_rules_spec(), ""@, "secrets"@),
        grants_all_verbs(operator_rules_spec(), ""@, "events"@),
        grants_all_verbs(operator_rules_spec(), ""@, "namespaces"@),
        grants_all_verbs(operator_rules_spec(), ""@, "nodes"@),
        grants_all_verbs(operator_rules_spec(), ""@, "serviceaccounts"@),
        grants_all_verbs(operator_rules_spec(), "apps"@, "deployments"@),
        grants_all_verbs(operator_rules_spec(), "apps"@, "daemonsets"@),
        grants_all_verbs(operator_rules_spec(), "apps"@, "replicasets"@),
        grants_all_verbs(operator_rules_spec(), "apps"@, "statefulsets"@),
        grants_all_verbs(operator_rules_spec(), "apiextensions.k8s.io"@, "customresourcedefinitions"@),
        grants_all_verbs(operator_rules_spec(), "runtime.wasmcloud.dev"@, "wasmcloudhostconfigs"@),
        grants_all_verbs(operator_rules_spec(), "runtime.wasmcloud.dev"@, "wasmcloudapplications"@),
        grants_all_verbs(operator_rules_spec(), "rbac.authorization.k8s.io"@, "clusterroles"@),
        grants_all_verbs(operator_rules_spec(), "rbac.authorization.k8s.io"@, "clusterrolebindings"@),
        grants_all_verbs(operator_rules_spec(), "rbac.authorization.k8s.io"@, "roles"@),
        grants_all_verbs(operator_rules_spec(), "rbac.authorization.k8s.io"@, "rolebindings"@),
        grants_all_verbs(operator_rules_spec(), "coordination.k8s.io"@, "leases"@),
        grants_all_verbs(operator_rules_spec(), "apiregistration.k8s.io"@, "apiservices"@),
        grants_all_verbs(operator_rules_spec(), "admissionregistration.k8s.io"@, "mutatingwebhookconfigurations"@),
        grants_all_verbs(operator_rules_spec(), "admissionregistration.k8s.io"@, "validatingwebhookconfigurations"@),
        grants(operator_rules_spec(), "runtime.wasmcloud.dev"@, "wasmcloudhostconfigs/status"@, "get"@),
        grants(operator_rules_spec(), "runtime.wasmcloud.dev"@, "wasmcloudhostconfigs/status"@, "update"@),
        grants(operator_rules_spec(), "runtime.wasmcloud.dev"@, "wasmcloudhostconfigs/status"@, "patch"@),
        grants(operator_rules_spec(), "runtime.wasmcloud.dev"@, "wasmcloudapplications/status"@, "get"@),
        grants(operator_rules_spec(), "runtime.wasmcloud.dev"@, "wasmcloudapplications/status"@, "update"@),
        grants(operator_rules_spec(), "runtime.wasmcloud.dev"@, "wasmcloudapplications/status"@, "patch"@),
{
    let rules = operator_rules_spec();
    lemma_rule_grants_all_verbs(rules, 0, 0, 0);
    lemma_rule_grants_all_verbs(rules, 0, 0, 1);
    lemma_rule_grants_all_verbs(rules, 0, 0, 2);
    lemma_rule_grants_all_verbs(rules, 0, 0, 3);
    lemma_rule_grants_all_verbs(rules, 0, 0, 4);
    lemma_rule_grants_all_verbs(rules, 0, 0, 5);
    lemma_rule_grants_all_verbs(rules, 0, 0, 6);
    lemma_rule_grants_all_verbs(rules, 0, 0, 7);
    lemma_rule_grants_all_verbs(rules, 1, 0, 0);
    lemma_rule_grants_all_verbs(rules, 1, 0, 1);
    lemma_rule_grants_all_verbs(rules, 1, 0, 2);
    lemma_rule_grants_all_verbs(rules, 1, 0, 3);
    lemma_rule_grants_all_verbs(rules, 2, 0, 0);
    lemma_rule_grants_all_verbs(rules, 3, 0, 0);
    lemma_rule_grants_all_verbs(rules, 3, 0, 1);
    lemma_rule_grants_all_verbs(rules, 5, 0, 0);
    lemma_rule_grants_all_verbs(rules, 5, 0, 1);
    lemma_rule_grants_all_verbs(rules, 5, 0, 2);
    lemma_rule_grants_all_verbs(rules, 5, 0, 3);
    lemma_rule_grants_all_verbs(rules, 6, 0, 0);
    lemma_rule_grants_all_verbs(rules, 7, 0, 0);
    lemma_rule_grants_all_verbs(rules, 8, 0, 0);
    lemma_rule_grants_all_verbs(rules, 8, 0, 1);
    lemma_rule_grants(rules, 4, 0, 0, 0);
    lemma_rule_grants(rules, 4, 0, 0, 1);
    lemma_rule_grants(rules, 4, 0, 0, 2);
    lemma_rule_grants(rules, 4, 0, 1, 0);
    lemma_rule_grants(rules, 4, 0, 1, 1);
    lemma_rule_grants(rules, 4, 0, 1, 2);
}

/// The label map gives `key` the value `value`.
pub open spec fn maps_label(labels: Seq<(Seq<char>, Seq<char>)>, entry: (Seq<char>, Seq<char>)) -> bool {
    label_map(labels).contains_key(entry.0) && label_map(labels)[entry.0] == entry.1
}

/// The deployment's selector and the service's selector both pick the deployment's own
/// pods (every selector label is a pod label with the same value), and the service
/// forwards to the port the operator container listens on.
pub proof fn law_service_reaches_operator_pods()
    ensures
        forall|i: int|
            0 <= i < app_selector_spec().len() ==> maps_label(
                deployment_labels_spec(),
                #[trigger] app_selector_spec()[i],
            ),
        service_ports_spec()[0].2 == container_ports_spec()[0].0,
{
    lemma_deployment_labels();
    lemma_label_map_lookup(deployment_labels_spec(), 4);
    assert(deployment_labels_spec()[4] == app_selector_spec()[0]);
}

/// The deployment and its pods carry every common label with its value.
pub proof fn law_deployment_keeps_common_labels()
    ensures
        forall|i: int|
            0 <= i < operator_labels_spec().len() ==> maps_label(
                deployment_labels_spec(),
                #[trigger] operator_labels_spec()[i],
            ),
{
    lemma_deployment_labels();
    assert forall|i: int| 0 <= i < operator_labels_spec().len() implies maps_label(
        deployment_labels_spec(),
        #[trigger] operator_labels_spec()[i],
    ) by {
        assert(deployment_labels_spec()[i] == operator_labels_spec()[i]);
        lemma_label_map_lookup(deployment_labels_spec(), i);
    }
}

} // verus!
