//! The decisions of an installation: its steps, the checks after it, and when the
//! operator counts as ready.
use vstd::prelude::*;
use vstd::string::*;

use crate::error::{ErrorView, InstallerError, InstallerResult};
use crate::labels::strings_view;
use crate::manifests::InstallPlan;
use crate::outcome::{
    condition_is, creation_decision, has_condition, opt_text, text_or, text_with_failure, ApiFailure,
    ConditionModel, CreateStatus,
};
use crate::search::{
    first_some, first_true, lemma_first_some_scan, lemma_first_true, lemma_first_true_scan,
};
use crate::text::{i64_text, int_text, u64_text, decimal_text};

verus! {

// ---------------------------------------------------------------------------
// Steps
// ---------------------------------------------------------------------------

/// One step of an installation, in the order `install_steps` gives.
#[derive(Debug, PartialEq, Eq, Structural, Clone, Copy)]
pub enum InstallStep {
    CreateNamespace,
    CreateCrds,
    CreateServiceAccount,
    CreateClusterRole,
    CreateClusterRoleBinding,
    CreateDeployment,
    CreateService,
    WaitForCrds,
}

/// The steps of an installation, in order.
pub open spec fn install_steps_spec() -> Seq<InstallStep> {
    seq![
        InstallStep::CreateNamespace,
        InstallStep::CreateCrds,
        InstallStep::CreateServiceAccount,
        InstallStep::CreateClusterRole,
        InstallStep::CreateClusterRoleBinding,
        InstallStep::CreateDeployment,
        InstallStep::CreateService,
        InstallStep::WaitForCrds,
    ]
}

pub fn install_steps() -> (steps: Vec<InstallStep>)
    ensures
        steps@ == install_steps_spec(),
{
    let steps = vec![
        InstallStep::CreateNamespace,
        InstallStep::CreateCrds,
        InstallStep::CreateServiceAccount,
        InstallStep::CreateClusterRole,
        InstallStep::CreateClusterRoleBinding,
        InstallStep::CreateDeployment,
        InstallStep::CreateService,
        InstallStep::WaitForCrds,
    ];
    assert(steps@ =~= install_steps_spec());
    steps
}

pub open spec fn install_step_message_spec(step: InstallStep) -> Seq<char> {
    match step {
        InstallStep::CreateNamespace => "Creating namespace..."@,
        InstallStep::CreateCrds => "Creating Custom Resource Definitions..."@,
        InstallStep::CreateServiceAccount => "Creating service account..."@,
        InstallStep::CreateClusterRole => "Creating cluster role..."@,
        InstallStep::CreateClusterRoleBinding => "Creating cluster role binding..."@,
        InstallStep::CreateDeployment => "Creating deployment..."@,
        InstallStep::CreateService => "Creating service..."@,
        InstallStep::WaitForCrds => "Waiting for CRDs to be ready..."@,
    }
}

impl InstallStep {
    /// The progress message shown while the step runs.
    pub fn message(&self) -> (s: String)
        ensures
            s@ == install_step_message_spec(*self),
    {
        match self {
            InstallStep::CreateNamespace => String::from_str("Creating namespace..."),
            InstallStep::CreateCrds => String::from_str("Creating Custom Resource Definitions..."),
            InstallStep::CreateServiceAccount => String::from_str("Creating service account..."),
            InstallStep::CreateClusterRole => String::from_str("Creating cluster role..."),
            InstallStep::CreateClusterRoleBinding => String::from_str(
                "Creating cluster role binding...",
            ),
            InstallStep::CreateDeployment => String::from_str("Creating deployment..."),
            InstallStep::CreateService => String::from_str("Creating service..."),
            InstallStep::WaitForCrds => String::from_str("Waiting for CRDs to be ready..."),
        }
    }
}

/// One check of structural readiness, in the order `structural_checks` gives.
#[derive(Debug, PartialEq, Eq, Structural, Clone, Copy)]
pub enum StructuralCheck {
    DeploymentExists,
    CrdsExist,
    ReplicaSetExists,
}

pub open spec fn structural_checks_spec() -> Seq<StructuralCheck> {
    seq![
        StructuralCheck::DeploymentExists,
        StructuralCheck::CrdsExist,
        StructuralCheck::ReplicaSetExists,
    ]
}

pub fn structural_checks() -> (checks: Vec<StructuralCheck>)
    ensures
        checks@ == structural_checks_spec(),
{
    let checks = vec![
        StructuralCheck::DeploymentExists,
        StructuralCheck::CrdsExist,
        StructuralCheck::ReplicaSetExists,
    ];
    assert(checks@ =~= structural_checks_spec());
    checks
}

pub open spec fn structural_check_message_spec(check: StructuralCheck) -> Seq<char> {
    match check {
        StructuralCheck::DeploymentExists => "Checking deployment exists..."@,
        StructuralCheck::CrdsExist => "Checking CRDs exist..."@,
        StructuralCheck::ReplicaSetExists => "Checking ReplicaSet exists..."@,
    }
}

impl StructuralCheck {
    /// The progress message shown while the check runs.
    pub fn message(&self) -> (s: String)
        ensures
            s@ == structural_check_message_spec(*self),
    {
        match self {
            StructuralCheck::DeploymentExists => String::from_str("Checking deployment exists..."),
            StructuralCheck::CrdsExist => String::from_str("Checking CRDs exist..."),
            StructuralCheck::ReplicaSetExists => String::from_str("Checking ReplicaSet exists..."),
        }
    }
}

/// One line of a dry run: what would be done, and to what.
pub struct PlanLine {
    pub action: String,
    pub subject: String,
}

pub open spec fn plan_line_view(l: PlanLine) -> (Seq<char>, Seq<char>) {
    (l.action@, l.subject@)
}

pub open spec fn dry_run_plan_spec(namespace: Seq<char>) -> Seq<(Seq<char>, Seq<char>)> {
    seq![
        ("Creating namespace"@, namespace),
        ("Creating CRDs"@, "Legacy (WasmCloudHostConfig, WasmCloudApplication)"@),
        ("Creating Runtime CRDs"@, "Artifact, Host, Workload, WorkloadDeployment, WorkloadReplicaSet"@),
        ("Creating Runtime CRDs"@, "Artifact, Host, Workload, WorkloadDeployment, WorkloadReplicaSet"@),
        ("Creating service account"@, "wasmcloud-operator"@),
        ("Creating cluster role"@, "wasmcloud-operator"@),
        ("Creating cluster role binding"@, "wasmcloud-operator"@),
        ("Creating deployment"@, "wasmcloud-operator"@),
        ("Creating service"@, "wasmcloud-operator"@),
    ]
}

fn plan_line(action: &str, subject: &str) -> (l: PlanLine)
    ensures
        plan_line_view(l) == (action@, subject@),
{
    PlanLine { action: String::from_str(action), subject: String::from_str(subject) }
}

// ---------------------------------------------------------------------------
// Readiness of the deployment
// ---------------------------------------------------------------------------

pub struct DeploymentStatusModel {
    pub replicas: Option<i32>,
    pub ready_replicas: Option<i32>,
    pub conditions: Option<Vec<ConditionModel>>,
}

/// What a look at the deployment shows.
pub enum Readiness {
    /// All desired replicas (at least one) are ready.
    Ready,
    /// Not ready yet; look again later.
    Pending,
    /// The deployment gave up progressing; the condition's message.
    Stalled(String),
}

pub open spec fn conditions_of(o: Option<Vec<ConditionModel>>) -> Seq<ConditionModel> {
    match o {
        Some(v) => v@,
        None => Seq::empty(),
    }
}

/// A condition that says the deployment exceeded its progress deadline.
pub open spec fn is_deadline_exceeded(c: ConditionModel) -> bool {
    &&& condition_is(c, "Progressing"@, "False"@)
    &&& c.reason matches Some(r) && r@ == "ProgressDeadlineExceeded"@
}

pub open spec fn deadline_flags(conds: Seq<ConditionModel>) -> Seq<bool> {
    Seq::new(conds.len(), |i: int| is_deadline_exceeded(conds[i]))
}

/// The message of the first deadline-exceeded condition, if any.
pub open spec fn stall_message(status: Option<DeploymentStatusModel>) -> Option<Seq<char>> {
    match status {
        None => None,
        Some(st) => {
            let conds = conditions_of(st.conditions);
            let k = first_true(deadline_flags(conds));
            if k >= 0 {
                Some(opt_text(conds[k].message, "Unknown"@))
            } else {
                None
            }
        },
    }
}

/// At least one replica is desired and as many are ready.
pub open spec fn replicas_ready(status: Option<DeploymentStatusModel>) -> bool {
    match status {
        None => false,
        Some(st) => {
            let desired: int = match st.replicas {
                Some(n) => n as int,
                None => 0,
            };
            let ready: int = match st.ready_replicas {
                Some(n) => n as int,
                None => 0,
            };
            desired > 0 && ready == desired
        },
    }
}

fn is_deadline_exceeded_exec(c: &ConditionModel) -> (r: bool)
    ensures
        r == is_deadline_exceeded(*c),
{
    let progressing = String::from_str("Progressing");
    let no = String::from_str("False");
    let deadline = String::from_str("ProgressDeadlineExceeded");
    if c.type_ == progressing && c.status == no {
        match &c.reason {
            Some(r) => *r == deadline,
            None => false,
        }
    } else {
        false
    }
}

/// `r` is what a look at the deployment with `status` shows.
pub open spec fn judges_status(r: Readiness, status: Option<DeploymentStatusModel>) -> bool {
    match r {
        Readiness::Stalled(m) => stall_message(status) == Some(m@),
        Readiness::Ready => stall_message(status) is None && replicas_ready(status),
        Readiness::Pending => stall_message(status) is None && !replicas_ready(status),
    }
}

/// Judges one poll of the deployment: a deployment that could not be read is not ready
/// yet (it is looked for again until the timeout), one that was read is judged by its
/// status (see `deployment_readiness`).
pub fn deployment_poll(observation: &Result<Option<DeploymentStatusModel>, ApiFailure>) -> (r:
    Readiness)
    ensures
        match observation {
            Err(_) => r is Pending,
            Ok(status) => judges_status(r, *status),
        },
{
    match observation {
        Err(_) => Readiness::Pending,
        Ok(status) => deployment_readiness(status),
    }
}

/// Judges a look at the deployment: a condition that reports an exceeded progress
/// deadline stalls it (the first such condition's message is kept, `Unknown` when it
/// has none); otherwise it is ready when at least one replica is desired and as many
/// are ready (a missing count counts as zero).
#[verifier::loop_isolation(false)]
pub fn deployment_readiness(status: &Option<DeploymentStatusModel>) -> (r: Readiness)
    ensures
        judges_status(r, *status),
{
    match status {
        None => Readiness::Pending,
        Some(st) => {
            let desired: i32 = match st.replicas {
                Some(n) => n,
                None => 0,
            };
            let ready: i32 = match st.ready_replicas {
                Some(n) => n,
                None => 0,
            };
            if let Some(conditions) = &st.conditions {
                let ghost flags = deadline_flags(conditions@);
                let mut i: usize = 0;
                while i < conditions.len()
                    invariant
                        i <= conditions.len(),
                        flags == deadline_flags(conditions@),
                        forall|j: int| 0 <= j < i ==> !#[trigger] flags[j],
                    decreases conditions.len() - i,
                {
                    if is_deadline_exceeded_exec(&conditions[i]) {
                        proof {
                            lemma_first_true_scan(flags, i as int);
                        }
                        return Readiness::Stalled(text_or(&conditions[i].message, "Unknown"));
                    }
                    i = i + 1;
                }
                proof {
                    lemma_first_true_scan(flags, i as int);
                }
            } else {
                assert(deadline_flags(Seq::empty()).len() == 0);
            }
            if desired > 0 && ready == desired {
                Readiness::Ready
            } else {
                Readiness::Pending
            }
        },
    }
}

/// What each verdict on a look at the deployment means, read off the status itself:
/// a deployment is stalled exactly when one of its conditions is `Progressing`/`False` with
/// reason `ProgressDeadlineExceeded`, and the message kept is the first such condition's
/// (`Unknown` when it has none); otherwise it is ready exactly when its desired replica
/// count is given and positive and its ready count is given and equal to it.
pub proof fn law_readiness_verdicts(r: Readiness, status: Option<DeploymentStatusModel>)
    requires
        judges_status(r, status),
    ensures
        r is Ready ==> (status matches Some(st) && st.replicas matches Some(d) && d > 0
            && st.ready_replicas == Some(d)),
        (r is Ready || r is Pending) ==> forall|i: int|
            0 <= i < conditions_of_status(status).len() ==> !(
            #[trigger] conditions_of_status(status)[i].type_@ == "Progressing"@
                && conditions_of_status(status)[i].status@ == "False"@
                && conditions_of_status(status)[i].reason is Some
                && conditions_of_status(status)[i].reason->0@ == "ProgressDeadlineExceeded"@),
        r is Pending ==> !(status matches Some(st) && st.replicas matches Some(d) && d > 0
            && st.ready_replicas == Some(d)) || exists|i: int|
            0 <= i < conditions_of_status(status).len() && (
            #[trigger] conditions_of_status(status)[i].type_@ == "Progressing"@
                && conditions_of_status(status)[i].status@ == "False"@
                && conditions_of_status(status)[i].reason is Some
                && conditions_of_status(status)[i].reason->0@ == "ProgressDeadlineExceeded"@),
        r matches Readiness::Stalled(m) ==> exists|i: int|
            0 <= i < conditions_of_status(status).len() && (
            #[trigger] conditions_of_status(status)[i].type_@ == "Progressing"@
                && conditions_of_status(status)[i].status@ == "False"@
                && conditions_of_status(status)[i].reason is Some
                && conditions_of_status(status)[i].reason->0@ == "ProgressDeadlineExceeded"@) && m@ == match conditions_of_status(
                status,
            )[i].message {
                Some(text) => text@,
                None => "Unknown"@,
            } && forall|j: int|
                0 <= j < i ==> !(
                #[trigger] conditions_of_status(status)[j].type_@ == "Progressing"@
                    && conditions_of_status(status)[j].status@ == "False"@
                    && conditions_of_status(status)[j].reason is Some
                    && conditions_of_status(status)[j].reason->0@ == "ProgressDeadlineExceeded"@),
{
    let conds = conditions_of_status(status);
    let flags = deadline_flags(conds);
    lemma_first_true(flags);
    assert forall|i: int| 0 <= i < conds.len() implies flags[i] == (conds[i].type_@ == "Progressing"@
        && conds[i].status@ == "False"@ && conds[i].reason is Some && conds[i].reason->0@
        == "ProgressDeadlineExceeded"@) by {
        assert(flags[i] == is_deadline_exceeded(conds[i]));
    }
    if status is Some {
        let st = status->0;
        assert(conds == conditions_of(st.conditions));
        let k = first_true(flags);
        assert(stall_message(status) == if k >= 0 {
            Some(opt_text(conds[k].message, "Unknown"@))
        } else {
            None::<Seq<char>>
        });
        if k >= 0 {
            assert(flags[k]);
            if r matches Readiness::Stalled(m) {
                assert forall|j: int| 0 <= j < k implies !(
                #[trigger] conditions_of_status(status)[j].type_@ == "Progressing"@
                    && conditions_of_status(status)[j].status@ == "False"@
                    && conditions_of_status(status)[j].reason is Some
                    && conditions_of_status(status)[j].reason->0@ == "ProgressDeadlineExceeded"@) by {
                    assert(!flags[j]);
                }
                assert(conds[k].type_@ == "Progressing"@);
            }
        } else {
            assert forall|i: int| 0 <= i < conditions_of_status(status).len() implies !(
            #[trigger] conditions_of_status(status)[i].type_@ == "Progressing"@
                && conditions_of_status(status)[i].status@ == "False"@
                && conditions_of_status(status)[i].reason is Some
                && conditions_of_status(status)[i].reason->0@ == "ProgressDeadlineExceeded"@) by {
                assert(!flags[i]);
            }
        }
    } else {
        assert(conds.len() == 0);
        assert(stall_message(status) is None);
    }
}

/// The conditions that a look at the deployment shows (none when it shows no status).
pub open spec fn conditions_of_status(status: Option<DeploymentStatusModel>) -> Seq<
    ConditionModel,
> {
    match status {
        Some(st) => conditions_of(st.conditions),
        None => Seq::empty(),
    }
}

/// The error for a deployment that stopped progressing, with what the pods tell.
pub fn stalled_deployment_error(condition_message: &str, pod_details: &str) -> (e: InstallerError)
    ensures
        e@ == ErrorView::Installation(
            "Deployment failed to progress: "@ + condition_message@ + ". Pod details: "@
                + pod_details@,
        ),
{
    let mut m = String::from_str("Deployment failed to progress: ");
    m.append(condition_message);
    m.append(". Pod details: ");
    m.append(pod_details);
    InstallerError::InstallationError(m)
}

impl InstallPlan {
    /// Whether the time spent waiting for the operator (in nanoseconds) exceeds the timeout.
    pub fn readiness_deadline_passed(&self, elapsed_nanos: u128) -> (r: bool)
        ensures
            r == (elapsed_nanos > self.timeout_secs * 1_000_000_000),
    {
        elapsed_nanos > (self.timeout_secs as u128) * 1_000_000_000
    }

    /// The error for an operator that did not become ready in time.
    pub fn readiness_timeout_error(&self) -> (e: InstallerError)
        ensures
            e@ == ErrorView::Timeout(
                "Operator not ready within "@ + decimal_text(self.timeout_secs as nat) + "s"@,
            ),
    {
        let mut m = String::from_str("Operator not ready within ");
        let secs = u64_text(self.timeout_secs);
        m.append(secs.as_str());
        m.append("s");
        InstallerError::TimeoutError(m)
    }

    /// The lines of a dry run.
    pub fn dry_run_plan(&self) -> (lines: Vec<PlanLine>)
        ensures
            lines@.len() == dry_run_plan_spec(self.namespace@).len(),
            forall|i: int|
                0 <= i < lines@.len() ==> plan_line_view(#[trigger] lines@[i])
                    == dry_run_plan_spec(self.namespace@)[i],
    {
        let lines = vec![
            plan_line("Creating namespace", self.namespace.as_str()),
            plan_line("Creating CRDs", "Legacy (WasmCloudHostConfig, WasmCloudApplication)"),
            plan_line(
                "Creating Runtime CRDs",
                "Artifact, Host, Workload, WorkloadDeployment, WorkloadReplicaSet",
            ),
            plan_line(
                "Creating Runtime CRDs",
                "Artifact, Host, Workload, WorkloadDeployment, WorkloadReplicaSet",
            ),
            plan_line("Creating service account", "wasmcloud-operator"),
            plan_line("Creating cluster role", "wasmcloud-operator"),
            plan_line("Creating cluster role binding", "wasmcloud-operator"),
            plan_line("Creating deployment", "wasmcloud-operator"),
            plan_line("Creating service", "wasmcloud-operator"),
        ];
        lines
    }
}

// ---------------------------------------------------------------------------
// What the pods say when the deployment stalls
// ---------------------------------------------------------------------------

pub struct WaitingModel {
    pub reason: Option<String>,
    pub message: Option<String>,
}

pub struct TerminatedModel {
    pub exit_code: i32,
    pub message: Option<String>,
}

pub struct ContainerStateModel {
    pub waiting: Option<WaitingModel>,
    pub terminated: Option<TerminatedModel>,
}

pub struct ContainerStatusModel {
    pub name: String,
    pub state: Option<ContainerStateModel>,
}

pub struct PodStatusModel {
    pub container_statuses: Option<Vec<ContainerStatusModel>>,
    pub conditions: Option<Vec<ConditionModel>>,
}

pub struct PodModel {
    pub status: Option<PodStatusModel>,
}

/// What a container tells of a failure: a waiting reason, else a non-zero exit code.
pub open spec fn container_detail(c: ContainerStatusModel) -> Option<Seq<char>> {
    match c.state {
        None => None,
        Some(st) => {
            let waiting_detail: Option<Seq<char>> = match st.waiting {
                Some(w) => match w.reason {
                    Some(reason) => Some(
                        "Container '"@ + c.name@ + "': "@ + reason@ + " - "@ + opt_text(
                            w.message,
                            "No message"@,
                        ),
                    ),
                    None => None,
                },
                None => None,
            };
            if waiting_detail is Some {
                waiting_detail
            } else {
                match st.terminated {
                    Some(t) => if t.exit_code != 0 {
                        Some(
                            "Container '"@ + c.name@ + "' terminated with exit code "@ + int_text(
                                t.exit_code as int,
                            ) + ": "@ + opt_text(t.message, "No message"@),
                        )
                    } else {
                        None
                    },
                    None => None,
                }
            }
        },
    }
}

/// What a pod condition tells: a false condition other than `PodReadyCondition`.
pub open spec fn pod_condition_detail(c: ConditionModel) -> Option<Seq<char>> {
    if c.status@ == "False"@ && c.type_@ != "PodReadyCondition"@ {
        Some("Pod condition '"@ + c.type_@ + "': "@ + opt_text(c.message, "No message"@))
    } else {
        None
    }
}

pub open spec fn container_details(cs: Seq<ContainerStatusModel>) -> Seq<Option<Seq<char>>> {
    Seq::new(cs.len(), |i: int| container_detail(cs[i]))
}

pub open spec fn condition_details(cs: Seq<ConditionModel>) -> Seq<Option<Seq<char>>> {
    Seq::new(cs.len(), |i: int| pod_condition_detail(cs[i]))
}

/// What a pod tells: its containers first, then its conditions.
pub open spec fn pod_detail(p: PodModel) -> Option<Seq<char>> {
    match p.status {
        None => None,
        Some(st) => {
            let from_containers = match st.container_statuses {
                Some(cs) => first_some(container_details(cs@)),
                None => None,
            };
            if from_containers is Some {
                from_containers
            } else {
                match st.conditions {
                    Some(cs) => first_some(condition_details(cs@)),
                    None => None,
                }
            }
        },
    }
}

pub open spec fn pod_details(pods: Seq<PodModel>) -> Seq<Option<Seq<char>>> {
    Seq::new(pods.len(), |i: int| pod_detail(pods[i]))
}

/// The report on a stalled deployment's pods: the first thing a pod tells, in order.
pub open spec fn pod_failure_report(pods: Result<Vec<PodModel>, ApiFailure>) -> Seq<char> {
    match pods {
        Err(f) => "Failed to get pod details: "@ + f.text@,
        Ok(ps) => match first_some(pod_details(ps@)) {
            Some(d) => d,
            None => "No specific pod failure details available"@,
        },
    }
}

fn container_detail_exec(c: &ContainerStatusModel) -> (r: Option<String>)
    ensures
        match r {
            Some(s) => container_detail(*c) == Some(s@),
            None => container_detail(*c) is None,
        },
{
    match &c.state {
        None => None,
        Some(st) => {
            if let Some(w) = &st.waiting {
                if let Some(reason) = &w.reason {
                    let mut m = String::from_str("Container '");
                    m.append(c.name.as_str());
                    m.append("': ");
                    m.append(reason.as_str());
                    m.append(" - ");
                    let msg = text_or(&w.message, "No message");
                    m.append(msg.as_str());
                    return Some(m);
                }
            }
            if let Some(t) = &st.terminated {
                if t.exit_code != 0 {
                    let mut m = String::from_str("Container '");
                    m.append(c.name.as_str());
                    m.append("' terminated with exit code ");
                    let code = i64_text(t.exit_code as i64);
                    m.append(code.as_str());
                    m.append(": ");
                    let msg = text_or(&t.message, "No message");
                    m.append(msg.as_str());
                    return Some(m);
                }
            }
            None
        },
    }
}

fn pod_condition_detail_exec(c: &ConditionModel) -> (r: Option<String>)
    ensures
        match r {
            Some(s) => pod_condition_detail(*c) == Some(s@),
            None => pod_condition_detail(*c) is None,
        },
{
    let no = String::from_str("False");
    let ready = String::from_str("PodReadyCondition");
    if c.status == no && !(c.type_ == ready) {
        let mut m = String::from_str("Pod condition '");
        m.append(c.type_.as_str());
        m.append("': ");
        let msg = text_or(&c.message, "No message");
        m.append(msg.as_str());
        Some(m)
    } else {
        None
    }
}

#[verifier::loop_isolation(false)]
fn pod_detail_exec(p: &PodModel) -> (r: Option<String>)
    ensures
        match r {
            Some(s) => pod_detail(*p) == Some(s@),
            None => pod_detail(*p) is None,
        },
{
    match &p.status {
        None => None,
        Some(st) => {
            if let Some(cs) = &st.container_statuses {
                let ghost details = container_details(cs@);
                let mut i: usize = 0;
                while i < cs.len()
                    invariant
                        i <= cs.len(),
                        details == container_details(cs@),
                        forall|j: int| 0 <= j < i ==> #[trigger] details[j] is None,
                    decreases cs.len() - i,
                {
                    let d = container_detail_exec(&cs[i]);
                    if d.is_some() {
                        proof {
                            lemma_first_some_scan(details, i as int);
                        }
                        return d;
                    }
                    assert(details[i as int] is None);
                    i = i + 1;
                }
                proof {
                    lemma_first_some_scan(details, i as int);
                }
            }
            if let Some(conds) = &st.conditions {
                let ghost details = condition_details(conds@);
                let mut i: usize = 0;
                while i < conds.len()
                    invariant
                        i <= conds.len(),
                        details == condition_details(conds@),
                        forall|j: int| 0 <= j < i ==> #[trigger] details[j] is None,
                    decreases conds.len() - i,
                {
                    let d = pod_condition_detail_exec(&conds[i]);
                    if d.is_some() {
                        proof {
                            lemma_first_some_scan(details, i as int);
                        }
                        return d;
                    }
                    assert(details[i as int] is None);
                    i = i + 1;
                }
                proof {
                    lemma_first_some_scan(details, i as int);
                }
            }
            None
        },
    }
}

/// Get detailed failure information from pods: the first waiting reason or failed exit
/// of a container, else the first false pod condition, pod by pod.
#[verifier::loop_isolation(false)]
pub fn get_pod_failure_details(pods: &Result<Vec<PodModel>, ApiFailure>) -> (s: String)
    ensures
        s@ == pod_failure_report(*pods),
{
    match pods {
        Err(f) => text_with_failure("Failed to get pod details: ", f),
        Ok(ps) => {
            let ghost details = pod_details(ps@);
            let mut i: usize = 0;
            while i < ps.len()
                invariant
                    i <= ps.len(),
                    details == pod_details(ps@),
                    forall|j: int| 0 <= j < i ==> #[trigger] details[j] is None,
                decreases ps.len() - i,
            {
                let d = pod_detail_exec(&ps[i]);
                match d {
                    Some(s) => {
                        proof {
                            lemma_first_some_scan(details, i as int);
                        }
                        return s;
                    },
                    None => {},
                }
                assert(details[i as int] is None);
                i = i + 1;
            }
            proof {
                lemma_first_some_scan(details, i as int);
            }
            String::from_str("No specific pod failure details available")
        },
    }
}

// ---------------------------------------------------------------------------
// Readiness of the CRDs
// ---------------------------------------------------------------------------

/// Names of the CRDs that must exist and be established after installing.
pub open spec fn required_crd_names_spec() -> Seq<Seq<char>> {
    seq!["wasmcloudhostconfigs.runtime.wasmcloud.dev"@, "wasmcloudapplications.runtime.wasmcloud.dev"@]
}

pub fn required_crd_names() -> (names: Vec<String>)
    ensures
        strings_view(names@) == required_crd_names_spec(),
{
    let names = vec![
        String::from_str("wasmcloudhostconfigs.runtime.wasmcloud.dev"),
        String::from_str("wasmcloudapplications.runtime.wasmcloud.dev"),
    ];
    assert(strings_view(names@) =~= required_crd_names_spec());
    names
}

/// A CRD is established when one of its conditions is `Established` and `True`;
/// a CRD that could not be read, or has no conditions, is not.
pub open spec fn crd_established(conditions: Option<Vec<ConditionModel>>) -> bool {
    match conditions {
        Some(cs) => exists|i: int|
            0 <= i < cs@.len() && condition_is(#[trigger] cs@[i], "Established"@, "True"@),
        None => false,
    }
}

/// A CRD counts as established exactly when one of its conditions has type `Established`
/// and status `True`; one that could not be read is not, and neither is one whose only
/// `True` conditions are `NamesAccepted` (names accepted, not yet served).
pub proof fn law_established_means_established_true(conditions: Option<Vec<ConditionModel>>)
    ensures
        crd_established(conditions) <==> (conditions is Some && exists|i: int|
            0 <= i < conditions->0@.len() && (#[trigger] conditions->0@[i]).type_@ == "Established"@
                && conditions->0@[i].status@ == "True"@),
        conditions is None ==> !crd_established(conditions),
        (conditions is Some && forall|i: int|
            0 <= i < conditions->0@.len() && (#[trigger] conditions->0@[i]).status@ == "True"@
                ==> conditions->0@[i].type_@ == "NamesAccepted"@) ==> !crd_established(conditions),
{
    reveal_strlit("Established");
    reveal_strlit("NamesAccepted");
    assert("Established"@.len() != "NamesAccepted"@.len());
}

/// Whether every observed CRD is established.
pub fn crds_ready(observations: &Vec<Option<Vec<ConditionModel>>>) -> (r: bool)
    ensures
        r == forall|i: int| 0 <= i < observations@.len() ==> crd_established(#[trigger] observations@[i]),
{
    let mut i: usize = 0;
    while i < observations.len()
        invariant
            i <= observations.len(),
            forall|j: int| 0 <= j < i ==> crd_established(#[trigger] observations@[j]),
        decreases observations.len() - i,
    {
        let established = match &observations[i] {
            Some(cs) => has_condition(cs, "Established", "True"),
            None => false,
        };
        if !established {
            proof {
                reveal_strlit("Established");
                reveal_strlit("True");
            }
            assert(!crd_established(observations@[i as int]));
            return false;
        }
        i = i + 1;
    }
    true
}

/// Whether the time spent waiting for the CRDs (in nanoseconds) exceeds sixty seconds.
pub fn crd_wait_deadline_passed(elapsed_nanos: u128) -> (r: bool)
    ensures
        r == (elapsed_nanos > 60_000_000_000),
{
    elapsed_nanos > 60_000_000_000
}

pub fn crd_wait_timeout_error() -> (e: InstallerError)
    ensures
        e@ == ErrorView::Timeout("CRDs not ready within 60s"@),
{
    InstallerError::TimeoutError(String::from_str("CRDs not ready within 60s"))
}

// ---------------------------------------------------------------------------
// Structural checks
// ---------------------------------------------------------------------------

/// The operator's deployment must be readable.
pub fn deployment_check_result(outcome: &Result<(), ApiFailure>) -> (r: InstallerResult<()>)
    ensures
        match outcome {
            Ok(()) => r is Ok,
            Err(f) => r matches Err(e) && e@ == ErrorView::Validation(
                "Deployment wasmcloud-operator not found: "@ + f.text@,
            ),
        },
{
    match outcome {
        Ok(()) => Ok(()),
        Err(f) => Err(
            InstallerError::ValidationError(
                text_with_failure("Deployment wasmcloud-operator not found: ", f),
            ),
        ),
    }
}

/// A required CRD must be readable.
pub fn crd_check_result(name: &str, outcome: &Result<(), ApiFailure>) -> (r: InstallerResult<()>)
    ensures
        match outcome {
            Ok(()) => r is Ok,
            Err(f) => r matches Err(e) && e@ == ErrorView::Validation(
                "CRD "@ + name@ + " not found: "@ + f.text@,
            ),
        },
{
    match outcome {
        Ok(()) => Ok(()),
        Err(f) => {
            let mut m = String::from_str("CRD ");
            m.append(name);
            m.append(" not found: ");
            m.append(f.text.as_str());
            Err(InstallerError::ValidationError(m))
        },
    }
}

/// The operator's ReplicaSets must be listable and at least one must exist;
/// the outcome carries how many were listed.
pub fn replicaset_check_result(outcome: &Result<usize, ApiFailure>) -> (r: InstallerResult<()>)
    ensures
        match outcome {
            Ok(n) => if *n > 0 {
                r is Ok
            } else {
                r matches Err(e) && e@ == ErrorView::Validation(
                    "No ReplicaSet found for wasmcloud-operator deployment"@,
                )
            },
            Err(f) => r matches Err(e) && e@ == ErrorView::Validation(
                "Failed to list ReplicaSets: "@ + f.text@,
            ),
        },
{
    match outcome {
        Ok(n) => {
            if *n == 0 {
                Err(
                    InstallerError::ValidationError(
                        String::from_str("No ReplicaSet found for wasmcloud-operator deployment"),
                    ),
                )
            } else {
                Ok(())
            }
        },
        Err(f) => Err(
            InstallerError::ValidationError(text_with_failure("Failed to list ReplicaSets: ", f)),
        ),
    }
}

// ---------------------------------------------------------------------------
// The cluster role binding
// ---------------------------------------------------------------------------

/// Where the making of the cluster role binding stands: the call whose outcome comes next.
#[derive(Debug, PartialEq, Eq, Structural, Clone, Copy)]
pub enum BindingPhase {
    /// The first create call.
    Create,
    /// Deleting a binding that existed already.
    DeleteExisting,
    /// Creating it again after the delete.
    Recreate,
}

/// What to do next.
pub enum BindingAction {
    /// The binding is in place.
    Done,
    /// Delete the existing binding, then report as `DeleteExisting`.
    Delete,
    /// Wait half a second, create again, then report as `Recreate`.
    Recreate,
    /// Give up with this error.
    Fail(InstallerError),
}

/// The phase that follows `phase` after `outcome`, or `None` once the making of the
/// binding has ended (made, or failed).
pub open spec fn binding_next_phase(phase: BindingPhase, outcome: Result<(), ApiFailure>) -> Option<
    BindingPhase,
> {
    match phase {
        BindingPhase::Create => match outcome {
            Err(f) => if f.has_code(409) {
                Some(BindingPhase::DeleteExisting)
            } else {
                None
            },
            Ok(()) => None,
        },
        BindingPhase::DeleteExisting => match outcome {
            Ok(()) => Some(BindingPhase::Recreate),
            Err(_) => None,
        },
        BindingPhase::Recreate => None,
    }
}

/// The binding is in place after `outcome`: the create (or the create after deleting)
/// succeeded.
pub open spec fn binding_made(phase: BindingPhase, outcome: Result<(), ApiFailure>) -> bool {
    outcome is Ok && phase != BindingPhase::DeleteExisting
}

/// How many calls at most remain after the call that `phase` names.
pub open spec fn binding_rank(phase: BindingPhase) -> int {
    match phase {
        BindingPhase::Create => 2,
        BindingPhase::DeleteExisting => 1,
        BindingPhase::Recreate => 0,
    }
}

/// Making the cluster role binding ends after at most three calls: each phase is
/// followed by one of lower rank, and an existing binding is deleted at most once.
pub proof fn law_binding_steps_terminate(phase: BindingPhase, outcome: Result<(), ApiFailure>)
    ensures
        binding_next_phase(phase, outcome) matches Some(next) ==> 0 <= binding_rank(next)
            < binding_rank(phase),
        phase != BindingPhase::Create ==> binding_next_phase(phase, outcome) != Some(
            BindingPhase::DeleteExisting,
        ),
        binding_next_phase(BindingPhase::Recreate, outcome) is None,
{
}

/// The next action of making the cluster role binding, given the outcome of the call
/// that `phase` names. An existing binding is deleted and created again, so that it
/// names the current namespace.
pub fn binding_step(phase: BindingPhase, outcome: &Result<(), ApiFailure>) -> (a: BindingAction)
    ensures
        match (phase, outcome) {
            (BindingPhase::Create, Ok(())) => a is Done,
            (BindingPhase::Create, Err(f)) => if f.has_code(409) {
                a is Delete
            } else {
                a matches BindingAction::Fail(e) && e@ == ErrorView::Installation(
                    "Failed to create cluster role binding: "@ + f.text@,
                )
            },
            (BindingPhase::DeleteExisting, Ok(())) => a is Recreate,
            (BindingPhase::DeleteExisting, Err(f)) => a matches BindingAction::Fail(e) && e@
                == ErrorView::Installation("Failed to delete old cluster role binding: "@ + f.text@),
            (BindingPhase::Recreate, Ok(())) => a is Done,
            (BindingPhase::Recreate, Err(f)) => a matches BindingAction::Fail(e) && e@
                == ErrorView::Installation("Failed to recreate cluster role binding: "@ + f.text@),
        },
        a is Delete ==> binding_next_phase(phase, *outcome) == Some(BindingPhase::DeleteExisting),
        a is Recreate ==> binding_next_phase(phase, *outcome) == Some(BindingPhase::Recreate),
        (a is Done || a is Fail) ==> binding_next_phase(phase, *outcome) is None,
        a is Done <==> binding_made(phase, *outcome),
{
    match phase {
        BindingPhase::Create => match outcome {
            Ok(()) => BindingAction::Done,
            Err(f) => {
                if f.code == Some(409u16) {
                    BindingAction::Delete
                } else {
                    BindingAction::Fail(
                        InstallerError::InstallationError(
                            text_with_failure("Failed to create cluster role binding: ", f),
                        ),
                    )
                }
            },
        },
        BindingPhase::DeleteExisting => match outcome {
            Ok(()) => BindingAction::Recreate,
            Err(f) => BindingAction::Fail(
                InstallerError::InstallationError(
                    text_with_failure("Failed to delete old cluster role binding: ", f),
                ),
            ),
        },
        BindingPhase::Recreate => match outcome {
            Ok(()) => BindingAction::Done,
            Err(f) => BindingAction::Fail(
                InstallerError::InstallationError(
                    text_with_failure("Failed to recreate cluster role binding: ", f),
                ),
            ),
        },
    }
}

/// Installing again over an existing installation succeeds: every resource that exists
/// already (the API answers 409 Conflict to its create) is kept, whatever its subject, and
/// an existing cluster role binding is deleted and made again, after which it is in place.
pub proof fn law_reinstall_succeeds(subject: Seq<char>, existing: ApiFailure)
    requires
        existing.has_code(409),
    ensures
        creation_decision(subject, Err(existing)) == Ok::<CreateStatus, ErrorView>(
            CreateStatus::AlreadyExists,
        ),
        binding_next_phase(BindingPhase::Create, Err(existing)) == Some(
            BindingPhase::DeleteExisting,
        ),
        binding_next_phase(BindingPhase::DeleteExisting, Ok(())) == Some(BindingPhase::Recreate),
        binding_next_phase(BindingPhase::Recreate, Ok(())) is None,
        binding_made(BindingPhase::Recreate, Ok(())),
{
}

} // verus!
