use std::collections::BTreeMap;
use wasmcloud_installer::crds::{
    application_crd_manifest, basic_schema, crd_creation_result, crd_manifests, create_runtime_crd,
    host_config_crd_manifest, runtime_crd_with_singular, CrdManifest,
};
use wasmcloud_installer::error::InstallerError;
use wasmcloud_installer::install::required_crd_names;
use wasmcloud_installer::labels::insert_label;
use wasmcloud_installer::manifests::InstallPlan;
use wasmcloud_installer::outcome::{creation_result, ApiFailure, CreateStatus};

fn plan() -> InstallPlan {
    InstallPlan::new("wasmcloud-system", 300, "ghcr.io/wasmcloud/wasmcloud-operator:0.4.0")
}

fn as_map(labels: &[(String, String)]) -> BTreeMap<String, String> {
    labels.iter().cloned().collect()
}

fn common() -> BTreeMap<String, String> {
    let mut m = BTreeMap::new();
    m.insert("app.kubernetes.io/name".to_string(), "wasmcloud-operator".to_string());
    m.insert("app.kubernetes.io/component".to_string(), "operator".to_string());
    m.insert("app.kubernetes.io/part-of".to_string(), "wasmcloud".to_string());
    m.insert("app.kubernetes.io/managed-by".to_string(), "wasmcloud-installer".to_string());
    m
}

#[test]
fn plan_keeps_its_settings() {
    let p = plan();
    assert_eq!(p.namespace, "wasmcloud-system");
    assert_eq!(p.timeout_secs, 300);
    assert_eq!(p.operator_image, "ghcr.io/wasmcloud/wasmcloud-operator:0.4.0");
}

#[test]
fn namespace_and_service_account_manifests() {
    let p = plan();
    let ns = p.create_namespace_manifest();
    assert_eq!(ns.metadata.name, "wasmcloud-system");
    assert_eq!(ns.metadata.namespace, None);
    assert_eq!(as_map(&ns.metadata.labels), common());
    let sa = p.create_service_account_manifest();
    assert_eq!(sa.metadata.name, "wasmcloud-operator");
    assert_eq!(sa.metadata.namespace.as_deref(), Some("wasmcloud-system"));
    assert_eq!(as_map(&sa.metadata.labels), common());
}

#[test]
fn cluster_role_grants_the_operator_rules() {
    let role = plan().create_cluster_role_manifest();
    assert_eq!(role.metadata.name, "wasmcloud-operator");
    assert_eq!(role.metadata.namespace, None);
    assert_eq!(role.rules.len(), 9);
    let all = vec!["get", "list", "watch", "create", "update", "patch", "delete"];
    assert_eq!(role.rules[0].api_groups, vec![""]);
    assert_eq!(
        role.rules[0].resources,
        vec!["pods", "services", "configmaps", "secrets", "events", "namespaces", "nodes", "serviceaccounts"]
    );
    assert_eq!(role.rules[0].verbs, all);
    assert_eq!(role.rules[3].api_groups, vec!["runtime.wasmcloud.dev"]);
    assert_eq!(role.rules[3].resources, vec!["wasmcloudhostconfigs", "wasmcloudapplications"]);
    assert_eq!(role.rules[4].resources, vec!["wasmcloudhostconfigs/status", "wasmcloudapplications/status"]);
    assert_eq!(role.rules[4].verbs, vec!["get", "update", "patch"]);
    assert_eq!(role.rules[6].api_groups, vec!["coordination.k8s.io"]);
    assert_eq!(role.rules[6].resources, vec!["leases"]);
    assert_eq!(role.rules[8].api_groups, vec!["admissionregistration.k8s.io"]);
    for r in &role.rules {
        if r.resources[0] != "wasmcloudhostconfigs/status" {
            assert_eq!(r.verbs, all);
        }
    }
}

#[test]
fn binding_grants_role_to_service_account_in_namespace() {
    let p = plan();
    let b = p.create_cluster_role_binding_manifest();
    assert_eq!(b.metadata.name, "wasmcloud-operator");
    assert_eq!(b.role_ref.api_group, "rbac.authorization.k8s.io");
    assert_eq!(b.role_ref.kind, "ClusterRole");
    assert_eq!(b.role_ref.name, p.create_cluster_role_manifest().metadata.name);
    assert_eq!(b.subjects.len(), 1);
    let sa = p.create_service_account_manifest();
    assert_eq!(b.subjects[0].kind, "ServiceAccount");
    assert_eq!(b.subjects[0].name, sa.metadata.name);
    assert_eq!(Some(b.subjects[0].namespace.clone()), sa.metadata.namespace);
}

#[test]
fn deployment_runs_one_operator_replica() {
    let p = plan();
    let d = p.create_deployment_manifest();
    assert_eq!(d.metadata.name, "wasmcloud-operator");
    assert_eq!(d.metadata.namespace.as_deref(), Some("wasmcloud-system"));
    let mut labels = common();
    labels.insert("app".to_string(), "wasmcloud-operator".to_string());
    assert_eq!(as_map(&d.metadata.labels), labels);
    assert_eq!(as_map(&d.template_labels), labels);
    assert_eq!(d.replicas, 1);
    assert_eq!(d.service_account, "wasmcloud-operator");
    assert_eq!(d.containers.len(), 1);
    let c = &d.containers[0];
    assert_eq!(c.name, "operator");
    assert_eq!(c.image, "ghcr.io/wasmcloud/wasmcloud-operator:0.4.0");
    assert_eq!(c.ports.len(), 1);
    assert_eq!(c.ports[0].container_port, 8080);
    assert_eq!(c.ports[0].name, "http");
    assert_eq!(c.ports[0].protocol, "TCP");
    assert_eq!((c.requests.cpu.as_str(), c.requests.memory.as_str()), ("100m", "128Mi"));
    assert_eq!((c.limits.cpu.as_str(), c.limits.memory.as_str()), ("200m", "256Mi"));
}

#[test]
fn service_reaches_operator_pods() {
    let p = plan();
    let s = p.create_service_manifest();
    let d = p.create_deployment_manifest();
    assert_eq!(s.metadata.name, "wasmcloud-operator");
    assert_eq!(s.metadata.namespace.as_deref(), Some("wasmcloud-system"));
    assert_eq!(as_map(&s.metadata.labels), common());
    let pod_labels = as_map(&d.template_labels);
    for (k, v) in s.selector.iter().chain(d.selector.iter()) {
        assert_eq!(pod_labels.get(k), Some(v));
    }
    assert_eq!(s.ports.len(), 1);
    assert_eq!(s.ports[0].name, "http");
    assert_eq!(s.ports[0].port, 80);
    assert_eq!(s.ports[0].protocol, "TCP");
    assert_eq!(s.ports[0].target_port, d.containers[0].ports[0].container_port);
}

#[test]
fn insert_label_replaces_or_appends() {
    let mut labels = vec![("a".to_string(), "1".to_string()), ("b".to_string(), "2".to_string())];
    insert_label(&mut labels, "b".to_string(), "3".to_string());
    assert_eq!(labels, vec![("a".to_string(), "1".to_string()), ("b".to_string(), "3".to_string())]);
    insert_label(&mut labels, "c".to_string(), "4".to_string());
    assert_eq!(labels.len(), 3);
    assert_eq!(labels[2], ("c".to_string(), "4".to_string()));
}

fn check_crd(m: &CrdManifest, name: &str, group: &str, kind: &str, plural: &str, singular: &str, short: &str) {
    assert_eq!(m.name, name);
    assert_eq!(m.group, group);
    assert_eq!(m.kind, kind);
    assert_eq!(m.plural, plural);
    assert_eq!(m.singular, singular);
    assert_eq!(m.short_names, vec![short]);
    assert_eq!(m.scope, "Namespaced");
    assert_eq!(m.version, "v1alpha1");
    assert!(m.served && m.storage);
    let mut labels = BTreeMap::new();
    labels.insert("app.kubernetes.io/name".to_string(), "wasmcloud-operator".to_string());
    labels.insert("app.kubernetes.io/component".to_string(), "crd".to_string());
    labels.insert("app.kubernetes.io/part-of".to_string(), "wasmcloud".to_string());
    labels.insert("app.kubernetes.io/managed-by".to_string(), "wasmcloud-installer".to_string());
    assert_eq!(as_map(&m.labels), labels);
}

#[test]
fn crds_are_installed_in_order() {
    let ms = crd_manifests();
    assert_eq!(ms.len(), 7);
    check_crd(&ms[0], "wasmcloudhostconfigs.runtime.wasmcloud.dev", "runtime.wasmcloud.dev", "WasmCloudHostConfig", "wasmcloudhostconfigs", "wasmcloudhostconfig", "wchc");
    check_crd(&ms[1], "wasmcloudapplications.runtime.wasmcloud.dev", "runtime.wasmcloud.dev", "WasmCloudApplication", "wasmcloudapplications", "wasmcloudapplication", "wcapp");
    check_crd(&ms[2], "artifacts.runtime.wasmcloud.dev", "runtime.wasmcloud.dev", "Artifact", "artifacts", "artifact", "art");
    check_crd(&ms[3], "hosts.runtime.wasmcloud.dev", "runtime.wasmcloud.dev", "Host", "hosts", "host", "whost");
    check_crd(&ms[4], "workloads.runtime.wasmcloud.dev", "runtime.wasmcloud.dev", "Workload", "workloads", "workload", "wl");
    check_crd(&ms[5], "workloaddeployments.runtime.wasmcloud.dev", "runtime.wasmcloud.dev", "WorkloadDeployment", "workloaddeployments", "workloaddeployment", "wldep");
    check_crd(&ms[6], "workloadreplicasets.runtime.wasmcloud.dev", "runtime.wasmcloud.dev", "WorkloadReplicaSet", "workloadreplicasets", "workloadreplicaset", "wlrs");
    check_crd(&host_config_crd_manifest(), "wasmcloudhostconfigs.runtime.wasmcloud.dev", "runtime.wasmcloud.dev", "WasmCloudHostConfig", "wasmcloudhostconfigs", "wasmcloudhostconfig", "wchc");
    check_crd(&application_crd_manifest(), "wasmcloudapplications.runtime.wasmcloud.dev", "runtime.wasmcloud.dev", "WasmCloudApplication", "wasmcloudapplications", "wasmcloudapplication", "wcapp");
}

#[test]
fn runtime_crd_singular_is_the_lowercase_kind() {
    let m = create_runtime_crd("widgets", "WidgetSet", vec!["ws", "wset"]);
    assert_eq!(m.singular, "widgetset");
    assert_eq!(m.name, "widgets.runtime.wasmcloud.dev");
    assert_eq!(m.short_names, vec!["ws", "wset"]);
    let n = runtime_crd_with_singular("widgets", "WidgetSet", "given", vec![]);
    assert_eq!(n.singular, "given");
    assert!(n.short_names.is_empty());
}

#[test]
fn schema_accepts_any_spec_and_status() {
    let s = basic_schema();
    assert_eq!(s.type_, "object");
    assert_eq!(s.properties.len(), 2);
    assert_eq!((s.properties[0].name.as_str(), s.properties[0].type_.as_str()), ("spec", "object"));
    assert_eq!((s.properties[1].name.as_str(), s.properties[1].type_.as_str()), ("status", "object"));
    assert!(s.properties[0].preserve_unknown_fields && s.properties[1].preserve_unknown_fields);
}

#[test]
fn existing_objects_are_not_a_failure() {
    let conflict = Err(ApiFailure { code: Some(409), text: "AlreadyExists".to_string() });
    assert_eq!(creation_result("namespace", &Ok(())).unwrap(), CreateStatus::Created);
    assert_eq!(creation_result("namespace", &conflict).unwrap(), CreateStatus::AlreadyExists);
    let forbidden = Err(ApiFailure { code: Some(403), text: "forbidden".to_string() });
    match creation_result("service account", &forbidden) {
        Err(InstallerError::InstallationError(m)) => {
            assert_eq!(m, "Failed to create service account: forbidden")
        }
        _ => panic!("expected an installation error"),
    }
    let crd = &crd_manifests()[3];
    assert_eq!(crd_creation_result(crd, &conflict).unwrap(), CreateStatus::AlreadyExists);
    let down = Err(ApiFailure { code: None, text: "connection refused".to_string() });
    match crd_creation_result(crd, &down) {
        Err(InstallerError::InstallationError(m)) => {
            assert_eq!(m, "Failed to create Host CRD: connection refused")
        }
        _ => panic!("expected an installation error"),
    }
}

#[test]
fn checked_crds_are_installed_first_and_granted() {
    let installed = crd_manifests();
    let required = required_crd_names();
    assert_eq!(required, vec![installed[0].name.clone(), installed[1].name.clone()]);
    let role = plan().create_cluster_role_manifest();
    assert_eq!(role.rules[3].api_groups, vec![installed[0].group.clone()]);
    assert_eq!(role.rules[3].resources, vec![installed[0].plural.clone(), installed[1].plural.clone()]);
}
