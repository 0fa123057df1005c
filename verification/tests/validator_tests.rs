use wasmcloud_installer::error::InstallerError;
use wasmcloud_installer::kubernetes::{client_creation_error, connection_test_error};
use wasmcloud_installer::outcome::{ApiFailure, ConditionModel};
use wasmcloud_installer::validator::{
    check_existing_installations, check_permission, cluster_access_error,
    crd_permission_attributes, required_permissions, validate_crd_permissions,
    validate_crd_support, validate_kubernetes_version, validate_resource_availability,
    parse_version_part, KubeVersion, ResourceAvailability, ReviewStatus,
};

fn failure(code: Option<u16>, text: &str) -> ApiFailure {
    ApiFailure { code, text: text.to_string() }
}

fn validation(r: Result<(), InstallerError>) -> String {
    match r {
        Err(InstallerError::ValidationError(m)) => m,
        other => panic!("expected a validation error, got {:?}", other),
    }
}

#[test]
fn test_version_validation() {
    let supported_version = k8s_openapi::apimachinery::pkg::version::Info {
        major: "1".to_string(),
        minor: "24".to_string(),
        git_version: "v1.24.0".to_string(),
        ..Default::default()
    };

    // Test unsupported version structure
    let unsupported_version = k8s_openapi::apimachinery::pkg::version::Info {
        major: "1".to_string(),
        minor: "19".to_string(),
        git_version: "v1.19.0".to_string(),
        ..Default::default()
    };

    assert_eq!(supported_version.major, "1");
    assert_eq!(unsupported_version.minor, "19");
    assert!(validate_kubernetes_version(&supported_version.major, &supported_version.minor).is_ok());
    assert!(validate_kubernetes_version(&unsupported_version.major, &unsupported_version.minor).is_err());
}

#[test]
fn versions_from_1_20_are_supported() {
    assert_eq!(validate_kubernetes_version("1", "20").unwrap(), KubeVersion { major: 1, minor: 20 });
    assert_eq!(validate_kubernetes_version("2", "0").unwrap(), KubeVersion { major: 2, minor: 0 });
    assert!(validate_kubernetes_version("1", "23").unwrap().is_outdated());
    assert!(!validate_kubernetes_version("1", "24").unwrap().is_outdated());
    match validate_kubernetes_version("1", "19") {
        Err(InstallerError::ValidationError(m)) => assert_eq!(
            m,
            "Kubernetes version 1.19 is not supported. Minimum required version is 1.20"
        ),
        _ => panic!(),
    }
    match validate_kubernetes_version("0", "30") {
        Err(InstallerError::ValidationError(m)) => assert_eq!(
            m,
            "Kubernetes version 0.30 is not supported. Minimum required version is 1.20"
        ),
        _ => panic!(),
    }
    match validate_kubernetes_version("v1", "30") {
        Err(InstallerError::ValidationError(m)) => assert_eq!(m, "Invalid Kubernetes major version"),
        _ => panic!(),
    }
    assert_eq!(validate_kubernetes_version("1", "27+").unwrap(), KubeVersion { major: 1, minor: 27 });
    match validate_kubernetes_version("1", "19+") {
        Err(InstallerError::ValidationError(m)) => assert_eq!(
            m,
            "Kubernetes version 1.19 is not supported. Minimum required version is 1.20"
        ),
        _ => panic!(),
    }
    for bad in ["28++", "+", "", "2x8", " 28"] {
        match validate_kubernetes_version("1", bad) {
            Err(InstallerError::ValidationError(m)) => assert_eq!(m, "Invalid Kubernetes minor version"),
            _ => panic!("minor {:?} accepted", bad),
        }
    }
}

#[test]
fn permissions_checked_before_installing() {
    let checks = required_permissions("wasmcloud-system");
    assert_eq!(checks.len(), 8);
    assert_eq!(checks[0].attributes.namespace, None);
    assert_eq!(checks[0].attributes.group.as_deref(), Some(""));
    assert_eq!(checks[0].attributes.resource.as_deref(), Some("namespaces"));
    assert_eq!(checks[0].attributes.verb.as_deref(), Some("create"));
    assert_eq!(checks[0].description, "create namespaces");
    assert_eq!(checks[2].attributes.resource.as_deref(), Some("clusterrolebindings"));
    for c in &checks[3..] {
        assert_eq!(c.attributes.namespace.as_deref(), Some("wasmcloud-system"));
    }
    assert_eq!(checks[6].attributes.verb.as_deref(), Some("get"));
    assert_eq!(checks[7].description, "list pods");
    let crd = crd_permission_attributes();
    assert_eq!(crd.namespace, None);
    assert_eq!(crd.group.as_deref(), Some("apiextensions.k8s.io"));
    assert_eq!(crd.resource.as_deref(), Some("customresourcedefinitions"));
    assert_eq!(crd.verb.as_deref(), Some("create"));
}

#[test]
fn permission_answers() {
    let allowed = Ok(Some(ReviewStatus { allowed: true, reason: None }));
    assert!(check_permission("create namespaces", &allowed).is_ok());
    let denied = Ok(Some(ReviewStatus { allowed: false, reason: Some("RBAC: denied".to_string()) }));
    assert_eq!(validation(check_permission("create namespaces", &denied)), "Missing permission to create namespaces: RBAC: denied");
    let denied_silently = Ok(Some(ReviewStatus { allowed: false, reason: None }));
    assert_eq!(validation(check_permission("list pods", &denied_silently)), "Missing permission to list pods: Permission denied");
    assert_eq!(validation(check_permission("list pods", &Ok(None))), "Cannot determine permission status for: list pods");
    assert_eq!(validation(check_permission("list pods", &Err(failure(None, "timeout")))), "Failed to check permission 'list pods': timeout");

    assert!(validate_crd_permissions(&allowed).is_ok());
    assert!(validate_crd_permissions(&Ok(None)).is_ok());
    assert_eq!(validation(validate_crd_permissions(&denied_silently)), "Insufficient permissions to create CRDs. Reason: No reason provided");
    assert_eq!(validation(validate_crd_permissions(&Err(failure(Some(500), "oops")))), "Failed to check CRD creation permissions: oops");
}

#[test]
fn prerequisites() {
    assert!(validate_crd_support(&Ok(())).is_ok());
    assert_eq!(
        validation(validate_crd_support(&Err(failure(Some(404), "not found")))),
        "Custom Resource Definitions are not supported or accessible: not found"
    );
    assert_eq!(check_existing_installations(&Ok(())).unwrap(), true);
    assert_eq!(check_existing_installations(&Err(failure(Some(404), "not found"))).unwrap(), false);
    match check_existing_installations(&Err(failure(Some(403), "forbidden"))) {
        Err(InstallerError::ValidationError(m)) => assert_eq!(m, "Failed to check for existing namespace: forbidden"),
        _ => panic!(),
    }
    assert_eq!(cluster_access_error(&failure(None, "refused")).message(), "Validation error: Cannot connect to Kubernetes API server: refused");
}

fn node(conds: &[(&str, &str)]) -> Option<Vec<ConditionModel>> {
    Some(conds.iter().map(|(t, s)| ConditionModel { type_: t.to_string(), status: s.to_string(), reason: None, message: None }).collect())
}

#[test]
fn ready_nodes_are_counted() {
    assert_eq!(validate_resource_availability(&Err(failure(Some(403), "forbidden"))), ResourceAvailability::NodesHidden);
    assert_eq!(validate_resource_availability(&Ok(vec![])), ResourceAvailability::NoNodes);
    assert_eq!(
        validate_resource_availability(&Ok(vec![node(&[("Ready", "False")]), None])),
        ResourceAvailability::NoReadyNodes
    );
    assert_eq!(
        validate_resource_availability(&Ok(vec![
            node(&[("MemoryPressure", "False"), ("Ready", "True")]),
            node(&[("Ready", "Unknown")]),
            node(&[("Ready", "True")]),
        ])),
        ResourceAvailability::ReadyNodes(2)
    );
}

#[test]
fn client_errors_explain_exec_authentication() {
    let plain = client_creation_error(None, "invalid kubeconfig");
    assert_eq!(plain.message(), "Kubernetes connection error: Failed to create Kubernetes client: invalid kubeconfig");
    let with_path = client_creation_error(Some("/tmp/kc"), "invalid kubeconfig");
    assert_eq!(
        with_path.message(),
        "Kubernetes connection error: Failed to create Kubernetes client with kubeconfig /tmp/kc: invalid kubeconfig"
    );
    match client_creation_error(None, "unable to run auth exec: az not found") {
        InstallerError::KubeConnectionError(m) => {
            assert!(m.starts_with("Failed to create Kubernetes client: unable to run auth exec: az not found\n\nYour kubeconfig uses exec-based authentication."));
            assert!(m.ends_with("- Run 'kubectl get nodes' first to test your authentication setup"));
            assert!(m.contains("\n- For AWS (EKS): Install aws-iam-authenticator"));
        }
        _ => panic!(),
    }
    match client_creation_error(Some("/k"), "exec: No such file or directory (os error 2)") {
        InstallerError::KubeConnectionError(m) => {
            assert!(m.starts_with("Failed to create Kubernetes client with kubeconfig /k: exec: No such file or directory (os error 2)\n\nThis error typically occurs"));
            assert!(m.contains("\n1. Install the required authentication tool:\n- For Azure: Install Azure CLI (az)"));
            assert!(m.ends_with("4. Check the kubeconfig file for the exact exec command being used"));
        }
        _ => panic!(),
    }
    assert_eq!(connection_test_error(&failure(None, "EOF")).message(), "Kubernetes connection error: Failed to connect to cluster: EOF");
}

#[test]
fn version_parts_ignore_one_trailing_plus() {
    assert_eq!(parse_version_part("27+"), Some(27));
    assert_eq!(parse_version_part("27"), Some(27));
    assert_eq!(parse_version_part("+27"), Some(27));
    assert_eq!(parse_version_part("27++"), None);
    assert_eq!(parse_version_part("+"), None);
}
