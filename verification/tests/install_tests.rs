use wasmcloud_installer::error::InstallerError;
use wasmcloud_installer::install::{
    binding_step, crd_check_result, crd_wait_deadline_passed, crd_wait_timeout_error, crds_ready,
    deployment_check_result, deployment_poll, deployment_readiness, get_pod_failure_details, install_steps,
    replicaset_check_result, required_crd_names, stalled_deployment_error, structural_checks,
    BindingAction, BindingPhase, ContainerStateModel, ContainerStatusModel, DeploymentStatusModel,
    InstallStep, PodModel, PodStatusModel, Readiness, StructuralCheck, TerminatedModel,
    WaitingModel,
};
use wasmcloud_installer::manifests::InstallPlan;
use wasmcloud_installer::outcome::{ApiFailure, ConditionModel};

fn cond(t: &str, s: &str, reason: Option<&str>, message: Option<&str>) -> ConditionModel {
    ConditionModel {
        type_: t.to_string(),
        status: s.to_string(),
        reason: reason.map(|r| r.to_string()),
        message: message.map(|m| m.to_string()),
    }
}

fn failure(code: Option<u16>, text: &str) -> ApiFailure {
    ApiFailure { code, text: text.to_string() }
}

fn msg(e: InstallerError) -> String {
    e.message()
}

#[test]
fn install_runs_eight_steps_in_order() {
    let steps = install_steps();
    assert_eq!(
        steps,
        vec![
            InstallStep::CreateNamespace,
            InstallStep::CreateCrds,
            InstallStep::CreateServiceAccount,
            InstallStep::CreateClusterRole,
            InstallStep::CreateClusterRoleBinding,
            InstallStep::CreateDeployment,
            InstallStep::CreateService,
            InstallStep::WaitForCrds,
        ]
    );
    assert_eq!(steps[1].message(), "Creating Custom Resource Definitions...");
    assert_eq!(steps[7].message(), "Waiting for CRDs to be ready...");
    let checks = structural_checks();
    assert_eq!(checks, vec![StructuralCheck::DeploymentExists, StructuralCheck::CrdsExist, StructuralCheck::ReplicaSetExists]);
    assert_eq!(checks[2].message(), "Checking ReplicaSet exists...");
}

#[test]
fn dry_run_lists_every_resource() {
    let plan = InstallPlan::new("demo", 300, "img");
    let lines = plan.dry_run_plan();
    assert_eq!(lines.len(), 9);
    assert_eq!((lines[0].action.as_str(), lines[0].subject.as_str()), ("Creating namespace", "demo"));
    assert_eq!(lines[1].subject, "Legacy (WasmCloudHostConfig, WasmCloudApplication)");
    assert_eq!(lines[2].subject, "Artifact, Host, Workload, WorkloadDeployment, WorkloadReplicaSet");
    assert_eq!((lines[8].action.as_str(), lines[8].subject.as_str()), ("Creating service", "wasmcloud-operator"));
}

#[test]
fn deployment_is_ready_when_all_desired_replicas_are() {
    let ready = Some(DeploymentStatusModel { replicas: Some(1), ready_replicas: Some(1), conditions: None });
    assert!(matches!(deployment_readiness(&ready), Readiness::Ready));
    let starting = Some(DeploymentStatusModel { replicas: Some(2), ready_replicas: Some(1), conditions: None });
    assert!(matches!(deployment_readiness(&starting), Readiness::Pending));
    let zero = Some(DeploymentStatusModel { replicas: None, ready_replicas: None, conditions: None });
    assert!(matches!(deployment_readiness(&zero), Readiness::Pending));
    assert!(matches!(deployment_readiness(&None), Readiness::Pending));
}

#[test]
fn deployment_past_its_deadline_is_stalled() {
    let st = Some(DeploymentStatusModel {
        replicas: Some(1),
        ready_replicas: Some(1),
        conditions: Some(vec![
            cond("Available", "False", Some("MinimumReplicasUnavailable"), None),
            cond("Progressing", "False", Some("ProgressDeadlineExceeded"), Some("ReplicaSet timed out")),
            cond("Progressing", "False", Some("ProgressDeadlineExceeded"), Some("second")),
        ]),
    });
    match deployment_readiness(&st) {
        Readiness::Stalled(m) => assert_eq!(m, "ReplicaSet timed out"),
        _ => panic!("expected a stalled deployment"),
    }
    let no_message = Some(DeploymentStatusModel {
        replicas: Some(1),
        ready_replicas: Some(0),
        conditions: Some(vec![cond("Progressing", "False", Some("ProgressDeadlineExceeded"), None)]),
    });
    match deployment_readiness(&no_message) {
        Readiness::Stalled(m) => assert_eq!(m, "Unknown"),
        _ => panic!("expected a stalled deployment"),
    }
    let other_reason = Some(DeploymentStatusModel {
        replicas: Some(1),
        ready_replicas: Some(0),
        conditions: Some(vec![cond("Progressing", "False", Some("Other"), Some("x"))]),
    });
    assert!(matches!(deployment_readiness(&other_reason), Readiness::Pending));
    assert_eq!(
        msg(stalled_deployment_error("ReplicaSet timed out", "Container 'operator': ErrImagePull - no")),
        "Installation error: Deployment failed to progress: ReplicaSet timed out. Pod details: Container 'operator': ErrImagePull - no"
    );
}

#[test]
fn readiness_timeout() {
    let plan = InstallPlan::new("demo", 300, "img");
    assert!(!plan.readiness_deadline_passed(300_000_000_000));
    assert!(plan.readiness_deadline_passed(300_000_000_001));
    assert_eq!(msg(plan.readiness_timeout_error()), "Timeout waiting for deployment: Operator not ready within 300s");
    assert!(!crd_wait_deadline_passed(60_000_000_000));
    assert!(crd_wait_deadline_passed(60_000_000_001));
    assert_eq!(msg(crd_wait_timeout_error()), "Timeout waiting for deployment: CRDs not ready within 60s");
}

fn container(name: &str, waiting: Option<(Option<&str>, Option<&str>)>, exit: Option<(i32, Option<&str>)>) -> ContainerStatusModel {
    ContainerStatusModel {
        name: name.to_string(),
        state: Some(ContainerStateModel {
            waiting: waiting.map(|(r, m)| WaitingModel { reason: r.map(|s| s.to_string()), message: m.map(|s| s.to_string()) }),
            terminated: exit.map(|(c, m)| TerminatedModel { exit_code: c, message: m.map(|s| s.to_string()) }),
        }),
    }
}

#[test]
fn pod_failure_details_report_the_first_problem() {
    let pods = vec![
        PodModel { status: None },
        PodModel {
            status: Some(PodStatusModel {
                container_statuses: Some(vec![
                    container("sidecar", Some((None, Some("ignored"))), Some((0, None))),
                    container("operator", None, Some((137, None))),
                ]),
                conditions: Some(vec![cond("Ready", "False", None, Some("not ready"))]),
            }),
        },
    ];
    assert_eq!(get_pod_failure_details(&Ok(pods)), "Container 'operator' terminated with exit code 137: No message");

    let waiting = vec![PodModel {
        status: Some(PodStatusModel {
            container_statuses: Some(vec![container("operator", Some((Some("ImagePullBackOff"), None)), Some((-1, Some("x"))))]),
            conditions: None,
        }),
    }];
    assert_eq!(get_pod_failure_details(&Ok(waiting)), "Container 'operator': ImagePullBackOff - No message");

    let conditions = vec![PodModel {
        status: Some(PodStatusModel {
            container_statuses: Some(vec![container("operator", None, Some((0, None)))]),
            conditions: Some(vec![
                cond("PodReadyCondition", "False", None, Some("skip")),
                cond("PodScheduled", "False", None, Some("0/3 nodes are available")),
            ]),
        }),
    }];
    assert_eq!(get_pod_failure_details(&Ok(conditions)), "Pod condition 'PodScheduled': 0/3 nodes are available");

    assert_eq!(get_pod_failure_details(&Ok(vec![])), "No specific pod failure details available");
    assert_eq!(get_pod_failure_details(&Err(failure(None, "timeout"))), "Failed to get pod details: timeout");
}

#[test]
fn crds_are_ready_when_all_are_established() {
    let est = || Some(vec![cond("NamesAccepted", "True", None, None), cond("Established", "True", None, None)]);
    let not_yet = Some(vec![cond("Established", "False", None, None)]);
    assert!(crds_ready(&vec![est(), est()]));
    assert!(!crds_ready(&vec![est(), not_yet]));
    assert!(!crds_ready(&vec![None, est()]));
    assert_eq!(required_crd_names(), vec!["wasmcloudhostconfigs.runtime.wasmcloud.dev", "wasmcloudapplications.runtime.wasmcloud.dev"]);
}

#[test]
fn structural_checks_report_what_is_missing() {
    assert!(deployment_check_result(&Ok(())).is_ok());
    assert_eq!(
        msg(deployment_check_result(&Err(failure(Some(404), "not found"))).unwrap_err()),
        "Validation error: Deployment wasmcloud-operator not found: not found"
    );
    assert!(crd_check_result("a.b", &Ok(())).is_ok());
    assert_eq!(msg(crd_check_result("a.b", &Err(failure(Some(404), "gone"))).unwrap_err()), "Validation error: CRD a.b not found: gone");
    assert!(replicaset_check_result(&Ok(2)).is_ok());
    assert_eq!(msg(replicaset_check_result(&Ok(0)).unwrap_err()), "Validation error: No ReplicaSet found for wasmcloud-operator deployment");
    assert_eq!(msg(replicaset_check_result(&Err(failure(None, "boom"))).unwrap_err()), "Validation error: Failed to list ReplicaSets: boom");
}

#[test]
fn existing_binding_is_replaced() {
    assert!(matches!(binding_step(BindingPhase::Create, &Ok(())), BindingAction::Done));
    assert!(matches!(binding_step(BindingPhase::Create, &Err(failure(Some(409), "exists"))), BindingAction::Delete));
    assert!(matches!(binding_step(BindingPhase::DeleteExisting, &Ok(())), BindingAction::Recreate));
    assert!(matches!(binding_step(BindingPhase::Recreate, &Ok(())), BindingAction::Done));
    match binding_step(BindingPhase::Create, &Err(failure(Some(403), "forbidden"))) {
        BindingAction::Fail(e) => assert_eq!(msg(e), "Installation error: Failed to create cluster role binding: forbidden"),
        _ => panic!(),
    }
    match binding_step(BindingPhase::DeleteExisting, &Err(failure(Some(403), "forbidden"))) {
        BindingAction::Fail(e) => assert_eq!(msg(e), "Installation error: Failed to delete old cluster role binding: forbidden"),
        _ => panic!(),
    }
    match binding_step(BindingPhase::Recreate, &Err(failure(Some(409), "exists"))) {
        BindingAction::Fail(e) => assert_eq!(msg(e), "Installation error: Failed to recreate cluster role binding: exists"),
        _ => panic!(),
    }
}

#[test]
fn binding_is_made_within_three_calls() {
    // Every sequence of answers ends the making of the binding after at most three calls.
    let answers = [
        Ok(()),
        Err(failure(Some(409), "exists")),
        Err(failure(Some(500), "boom")),
    ];
    for a in 0..3 {
        for b in 0..3 {
            for c in 0..3 {
                let seq = [a, b, c];
                let mut phase = BindingPhase::Create;
                let mut calls = 0;
                let ended = loop {
                    let answer = match &answers[seq[calls]] {
                        Ok(()) => Ok(()),
                        Err(f) => Err(failure(f.code, &f.text)),
                    };
                    calls += 1;
                    match binding_step(phase, &answer) {
                        BindingAction::Done | BindingAction::Fail(_) => break true,
                        BindingAction::Delete => phase = BindingPhase::DeleteExisting,
                        BindingAction::Recreate => phase = BindingPhase::Recreate,
                    }
                    if calls == 3 {
                        break false;
                    }
                };
                assert!(ended, "answers {:?} did not end", seq);
            }
        }
    }
}

#[test]
fn unreadable_deployment_is_waited_for() {
    assert!(matches!(deployment_poll(&Err(failure(Some(404), "not found"))), Readiness::Pending));
    assert!(matches!(deployment_poll(&Err(failure(None, "timeout"))), Readiness::Pending));
    let ready = Ok(Some(DeploymentStatusModel { replicas: Some(1), ready_replicas: Some(1), conditions: None }));
    assert!(matches!(deployment_poll(&ready), Readiness::Ready));
    assert!(matches!(deployment_poll(&Ok(None)), Readiness::Pending));
}

#[test]
fn reinstall_keeps_existing_resources() {
    let existing = || Err(failure(Some(409), "AlreadyExists"));
    for subject in ["namespace", "service account", "cluster role", "deployment", "service"] {
        assert!(matches!(
            wasmcloud_installer::outcome::creation_result(subject, &existing()),
            Ok(wasmcloud_installer::outcome::CreateStatus::AlreadyExists)
        ));
    }
    for crd in wasmcloud_installer::crds::crd_manifests() {
        assert!(wasmcloud_installer::crds::crd_creation_result(&crd, &existing()).is_ok());
    }
    let mut phase = BindingPhase::Create;
    let mut answer = existing();
    let mut calls = 0;
    loop {
        calls += 1;
        match binding_step(phase, &answer) {
            BindingAction::Done => break,
            BindingAction::Fail(e) => panic!("{}", e.message()),
            BindingAction::Delete => { phase = BindingPhase::DeleteExisting; answer = Ok(()); }
            BindingAction::Recreate => { phase = BindingPhase::Recreate; answer = Ok(()); }
        }
    }
    assert_eq!(calls, 3);
}
