use wasmcloud_installer::config::{
    Cluster, ClusterInfo, Context, ContextInfo, KubeConfig, User, UserInfo,
};
use wasmcloud_installer::error::InstallerError;

fn cluster(name: &str, server: &str) -> ClusterInfo {
    ClusterInfo {
        name: name.to_string(),
        cluster: Cluster {
            server: server.to_string(),
            certificate_authority_data: None,
            certificate_authority: None,
            insecure_skip_tls_verify: None,
        },
    }
}

fn user(name: &str, token: &str) -> UserInfo {
    UserInfo {
        name: name.to_string(),
        user: User {
            client_certificate_data: None,
            client_certificate: None,
            client_key_data: None,
            client_key: None,
            token: Some(token.to_string()),
            username: None,
            password: None,
        },
    }
}

fn context(name: &str, cluster: &str, user: &str, namespace: Option<&str>) -> ContextInfo {
    ContextInfo {
        name: name.to_string(),
        context: Context {
            cluster: cluster.to_string(),
            user: user.to_string(),
            namespace: namespace.map(|n| n.to_string()),
        },
    }
}

fn sample() -> KubeConfig {
    KubeConfig {
        api_version: "v1".to_string(),
        kind: "Config".to_string(),
        clusters: vec![cluster("kind", "https://127.0.0.1:6443"), cluster("prod", "https://prod:443")],
        users: vec![user("kind-admin", "t1"), user("prod-admin", "t2")],
        contexts: vec![
            context("kind-ctx", "kind", "kind-admin", None),
            context("prod-ctx", "prod", "prod-admin", Some("apps")),
        ],
        current_context: "prod-ctx".to_string(),
    }
}

fn kubeconfig_message(r: Result<(), InstallerError>) -> String {
    match r {
        Err(InstallerError::KubeconfigError(m)) => m,
        other => panic!("expected a kubeconfig error, got {:?}", other),
    }
}

#[test]
fn test_kubeconfig_validation() {
    let config = KubeConfig {
        api_version: "v1".to_string(),
        kind: "Config".to_string(),
        clusters: vec![],
        users: vec![],
        contexts: vec![],
        current_context: "test".to_string(),
    };

    let result = config.validate();
    assert!(result.is_err());
}

#[test]
fn validate_accepts_complete_config() {
    assert!(sample().validate().is_ok());
}

#[test]
fn validate_reports_missing_current_context_name() {
    let mut c = sample();
    c.current_context = String::new();
    assert_eq!(
        kubeconfig_message(c.validate()),
        "No current-context specified in kubeconfig"
    );
}

#[test]
fn validate_reports_unknown_context() {
    let mut c = sample();
    c.current_context = "staging".to_string();
    assert_eq!(
        kubeconfig_message(c.validate()),
        "Current context 'staging' not found in kubeconfig"
    );
}

#[test]
fn validate_reports_unknown_cluster() {
    let mut c = sample();
    c.contexts[1].context.cluster = "gone".to_string();
    assert_eq!(
        kubeconfig_message(c.validate()),
        "Cluster 'gone' referenced by context not found"
    );
}

#[test]
fn validate_reports_unknown_user() {
    let mut c = sample();
    c.contexts[1].context.user = "nobody".to_string();
    assert_eq!(
        kubeconfig_message(c.validate()),
        "User 'nobody' referenced by context not found"
    );
}

#[test]
fn current_cluster_and_user_follow_the_current_context() {
    let c = sample();
    let cl = c.get_current_cluster().unwrap();
    assert_eq!(cl.name, "prod");
    assert_eq!(cl.cluster.server, "https://prod:443");
    let u = c.get_current_user().unwrap();
    assert_eq!(u.name, "prod-admin");
    assert_eq!(u.user.token.as_deref(), Some("t2"));
}

#[test]
fn first_matching_context_wins() {
    let mut c = sample();
    c.contexts.push(context("prod-ctx", "kind", "kind-admin", Some("other")));
    assert_eq!(c.get_current_cluster().unwrap().name, "prod");
    assert_eq!(c.get_namespace().unwrap(), "apps");
}

#[test]
fn lookups_report_missing_context_cluster_and_user() {
    let mut c = sample();
    c.current_context = "nope".to_string();
    match c.get_current_cluster() {
        Err(InstallerError::KubeconfigError(m)) => assert_eq!(m, "Current context not found"),
        _ => panic!("expected an error"),
    }
    match c.get_current_user() {
        Err(InstallerError::KubeconfigError(m)) => assert_eq!(m, "Current context not found"),
        _ => panic!("expected an error"),
    }
    match c.get_namespace() {
        Err(InstallerError::KubeconfigError(m)) => assert_eq!(m, "Current context not found"),
        _ => panic!("expected an error"),
    }
    let mut d = sample();
    d.contexts[1].context.cluster = "gone".to_string();
    d.contexts[1].context.user = "nobody".to_string();
    match d.get_current_cluster() {
        Err(InstallerError::KubeconfigError(m)) => assert_eq!(m, "Cluster not found"),
        _ => panic!("expected an error"),
    }
    match d.get_current_user() {
        Err(InstallerError::KubeconfigError(m)) => assert_eq!(m, "User not found"),
        _ => panic!("expected an error"),
    }
}

#[test]
fn namespace_defaults_when_context_names_none() {
    let mut c = sample();
    assert_eq!(c.get_namespace().unwrap(), "apps");
    c.current_context = "kind-ctx".to_string();
    assert_eq!(c.get_namespace().unwrap(), "default");
}

#[test]
fn validated_config_resolves_cluster_and_user() {
    let c = sample();
    assert!(c.validate().is_ok());
    let ctx = &c.contexts[1];
    assert_eq!(c.get_current_cluster().unwrap().name, ctx.context.cluster);
    assert_eq!(c.get_current_user().unwrap().name, ctx.context.user);
}

#[test]
fn kubeconfig_io_errors_carry_their_detail() {
    let e = InstallerError::kubeconfig_read_failure("No such file or directory (os error 2)");
    assert_eq!(
        e.message(),
        "Kubeconfig error: Failed to read kubeconfig file: No such file or directory (os error 2)"
    );
    let e = InstallerError::kubeconfig_parse_failure("bad indentation");
    assert_eq!(e.message(), "Kubeconfig error: Failed to parse kubeconfig YAML: bad indentation");
    let e = InstallerError::home_directory_missing();
    assert_eq!(e.message(), "Kubeconfig error: Could not find home directory");
}

#[test]
fn every_error_kind_has_its_label() {
    let cases = vec![
        (InstallerError::KubeconfigError("m".to_string()), "Kubeconfig error: m"),
        (InstallerError::KubeConnectionError("m".to_string()), "Kubernetes connection error: m"),
        (InstallerError::ValidationError("m".to_string()), "Validation error: m"),
        (InstallerError::InstallationError("m".to_string()), "Installation error: m"),
        (InstallerError::TimeoutError("m".to_string()), "Timeout waiting for deployment: m"),
        (InstallerError::IoError("m".to_string()), "IO error: m"),
        (InstallerError::SerializationError("m".to_string()), "Serialization error: m"),
        (InstallerError::KubeError("m".to_string()), "Kubernetes API error: m"),
    ];
    for (e, text) in cases {
        assert_eq!(e.message(), text);
    }
}
