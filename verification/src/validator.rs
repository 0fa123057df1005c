//! Pre-installation checks: what is asked of the cluster, and how its answers are judged.
use vstd::prelude::*;
use vstd::string::*;

use crate::error::{ErrorView, InstallerError, InstallerResult};
use crate::manifests::opt_view;
use crate::outcome::{
    condition_is, has_condition, opt_text, text_or, text_with_failure, ApiFailure, ConditionModel,
};
use crate::search::{count_true, lemma_count_true_le_len};
use crate::text::{decimal_text, parse_u16, parse_unsigned_spec, u64_text};

verus! {

// ---------------------------------------------------------------------------
// Kubernetes version
// ---------------------------------------------------------------------------

/// A Kubernetes version that the installer supports.
#[derive(Debug, PartialEq, Eq, Structural, Clone, Copy)]
pub struct KubeVersion {
    pub major: u16,
    pub minor: u16,
}

/// The oldest supported version is 1.20.
pub open spec fn version_supported(major: int, minor: int) -> bool {
    !(major < 1 || (major == 1 && minor < 20))
}

impl KubeVersion {
    /// Versions before 1.24 are supported but old enough to deserve a warning.
    pub fn is_outdated(&self) -> (r: bool)
        ensures
            r == (self.major == 1 && self.minor < 24),
    {
        self.major == 1 && self.minor < 24
    }
}

/// A part of a reported version without one trailing `+` (managed clusters report
/// minor versions such as `27+`).
pub open spec fn version_digits(s: Seq<char>) -> Seq<char> {
    if s.len() > 0 && s.last() == '+' {
        s.drop_last()
    } else {
        s
    }
}

/// The number a reported version part stands for: its digits read as a `u16`.
pub open spec fn version_part_spec(s: Seq<char>) -> Option<int> {
    parse_unsigned_spec(version_digits(s), 0xffff)
}

/// Reads a reported version part, ignoring one trailing `+`.
pub fn parse_version_part(s: &str) -> (r: Option<u16>)
    ensures
        match r {
            Some(v) => version_part_spec(s@) == Some(v as int),
            None => version_part_spec(s@) is None,
        },
{
    let n = s.unicode_len();
    if n > 0 && s.get_char(n - 1) == '+' {
        let digits = s.substring_char(0, n - 1);
        assert(digits@ =~= version_digits(s@));
        parse_u16(digits)
    } else {
        parse_u16(s)
    }
}

/// Validate Kubernetes version compatibility: both parts must read as `u16` numbers
/// (as `str::parse` reads them, after one trailing `+` is dropped) and the version must
/// be 1.20 or later.
pub fn validate_kubernetes_version(major: &str, minor: &str) -> (r: InstallerResult<KubeVersion>)
    ensures
        match r {
            Ok(v) => version_part_spec(major@) == Some(v.major as int) && version_part_spec(minor@)
                == Some(v.minor as int) && version_supported(
                v.major as int,
                v.minor as int,
            ),
            Err(e) => if version_part_spec(major@) is None {
                e@ == ErrorView::Validation("Invalid Kubernetes major version"@)
            } else if version_part_spec(minor@) is None {
                e@ == ErrorView::Validation("Invalid Kubernetes minor version"@)
            } else {
                let ma = version_part_spec(major@)->0;
                let mi = version_part_spec(minor@)->0;
                &&& !version_supported(ma, mi)
                &&& e@ == ErrorView::Validation(
                    "Kubernetes version "@ + decimal_text(ma as nat) + "."@ + decimal_text(mi as nat)
                        + " is not supported. Minimum required version is 1.20"@,
                )
            },
        },
{
    let ma = match parse_version_part(major) {
        Some(v) => v,
        None => {
            return Err(
                InstallerError::ValidationError(
                    String::from_str("Invalid Kubernetes major version"),
                ),
            )
        },
    };
    let mi = match parse_version_part(minor) {
        Some(v) => v,
        None => {
            return Err(
                InstallerError::ValidationError(
                    String::from_str("Invalid Kubernetes minor version"),
                ),
            )
        },
    };
    if ma < 1 || (ma == 1 && mi < 20) {
        let mut m = String::from_str("Kubernetes version ");
        let a = u64_text(ma as u64);
        m.append(a.as_str());
        m.append(".");
        let b = u64_text(mi as u64);
        m.append(b.as_str());
        m.append(" is not supported. Minimum required version is 1.20");
        return Err(InstallerError::ValidationError(m));
    }
    Ok(KubeVersion { major: ma, minor: mi })
}

/// The error for an API server that could not be reached.
pub fn cluster_access_error(failure: &ApiFailure) -> (e: InstallerError)
    ensures
        e@ == ErrorView::Validation("Cannot connect to Kubernetes API server: "@ + failure.text@),
{
    InstallerError::ValidationError(
        text_with_failure("Cannot connect to Kubernetes API server: ", failure),
    )
}

// ---------------------------------------------------------------------------
// Permissions
// ---------------------------------------------------------------------------

/// What an access review asks about: in which namespace (none: cluster-wide), on
/// which API group, resource and verb.
pub struct ResourceAttributesModel {
    pub namespace: Option<String>,
    pub group: Option<String>,
    pub resource: Option<String>,
    pub verb: Option<String>,
}

/// One access review to ask, and how to describe it.
pub struct PermissionCheck {
    pub attributes: ResourceAttributesModel,
    pub description: String,
}

pub open spec fn attributes_view(a: ResourceAttributesModel) -> (
    Option<Seq<char>>,
    Option<Seq<char>>,
    Option<Seq<char>>,
    Option<Seq<char>>,
) {
    (opt_view(a.namespace), opt_view(a.group), opt_view(a.resource), opt_view(a.verb))
}

pub open spec fn permission_view(p: PermissionCheck) -> (
    Option<Seq<char>>,
    Option<Seq<char>>,
    Option<Seq<char>>,
    Option<Seq<char>>,
    Seq<char>,
) {
    let a = attributes_view(p.attributes);
    (a.0, a.1, a.2, a.3, p.description@)
}

/// The permissions an installation into `namespace` needs, in the order they are checked.
pub open spec fn required_permissions_spec(namespace: Seq<char>) -> Seq<
    (Option<Seq<char>>, Option<Seq<char>>, Option<Seq<char>>, Option<Seq<char>>, Seq<char>),
> {
    seq![
        (None, Some(""@), Some("namespaces"@), Some("create"@), "create namespaces"@),
        (
            None,
            Some("rbac.authorization.k8s.io"@),
            Some("clusterroles"@),
            Some("create"@),
            "create cluster roles"@,
        ),
        (
            None,
            Some("rbac.authorization.k8s.io"@),
            Some("clusterrolebindings"@),
            Some("create"@),
            "create cluster role bindings"@,
        ),
        (
            Some(namespace),
            Some(""@),
            Some("serviceaccounts"@),
            Some("create"@),
            "create service accounts"@,
        ),
        (Some(namespace), Some("apps"@), Some("deployments"@), Some("create"@), "create deployments"@),
        (Some(namespace), Some(""@), Some("services"@), Some("create"@), "create services"@),
        (Some(namespace), Some("apps"@), Some("deployments"@), Some("get"@), "get deployments"@),
        (Some(namespace), Some(""@), Some("pods"@), Some("list"@), "list pods"@),
    ]
}

fn attributes(namespace: Option<&str>, group: &str, resource: &str, verb: &str) -> (a:
    ResourceAttributesModel)
    ensures
        attributes_view(a) == (
            match namespace {
                Some(ns) => Some(ns@),
                None => None::<Seq<char>>,
            },
            Some(group@),
            Some(resource@),
            Some(verb@),
        ),
{
    ResourceAttributesModel {
        namespace: match namespace {
            Some(ns) => Some(String::from_str(ns)),
            None => None,
        },
        group: Some(String::from_str(group)),
        resource: Some(String::from_str(resource)),
        verb: Some(String::from_str(verb)),
    }
}

fn permission(namespace: Option<&str>, group: &str, resource: &str, verb: &str, description: &str) -> (p:
    PermissionCheck)
    ensures
        permission_view(p) == (
            match namespace {
                Some(ns) => Some(ns@),
                None => None::<Seq<char>>,
            },
            Some(group@),
            Some(resource@),
            Some(verb@),
            description@,
        ),
{
    PermissionCheck {
        attributes: attributes(namespace, group, resource, verb),
        description: String::from_str(description),
    }
}

/// The permission checks of `validate_permissions`, in order.
pub fn required_permissions(namespace: &str) -> (checks: Vec<PermissionCheck>)
    ensures
        checks@.len() == required_permissions_spec(namespace@).len(),
        forall|i: int|
            0 <= i < checks@.len() ==> permission_view(#[trigger] checks@[i])
                == required_permissions_spec(namespace@)[i],
{
    vec![
        // Check if we can create namespaces
        permission(None, "", "namespaces", "create", "create namespaces"),
        // Check RBAC permissions
        permission(None, "rbac.authorization.k8s.io", "clusterroles", "create", "create cluster roles"),
        permission(
            None,
            "rbac.authorization.k8s.io",
            "clusterrolebindings",
            "create",
            "create cluster role bindings",
        ),
        // Check namespace-level permissions
        permission(Some(namespace), "", "serviceaccounts", "create", "create service accounts"),
        permission(Some(namespace), "apps", "deployments", "create", "create deployments"),
        permission(Some(namespace), "", "services", "create", "create services"),
        // Check if we can watch/list resources (needed for readiness checks)
        permission(Some(namespace), "apps", "deployments", "get", "get deployments"),
        permission(Some(namespace), "", "pods", "list", "list pods"),
    ]
}

/// Some permission check asks for `verb` on `group`/`resource` in `namespace`
/// (`None`: cluster-wide).
pub open spec fn asks_for(
    checks: Seq<(Option<Seq<char>>, Option<Seq<char>>, Option<Seq<char>>, Option<Seq<char>>, Seq<char>)>,
    namespace: Option<Seq<char>>,
    group: Seq<char>,
    resource: Seq<char>,
    verb: Seq<char>,
) -> bool {
    exists|i: int|
        0 <= i < checks.len() && #[trigger] checks[i].0 == namespace && checks[i].1 == Some(group)
            && checks[i].2 == Some(resource) && checks[i].3 == Some(verb)
}

/// Before installing into `namespace`, the installer asks to create each resource it
/// creates: namespaces, cluster roles and cluster role bindings cluster-wide, service
/// accounts, deployments and services in `namespace`; and to read deployments and list
/// pods there for the readiness checks. Every check asks one verb, and its description
/// begins with that verb.
pub proof fn law_permissions_cover_installation(namespace: Seq<char>)
    ensures
        asks_for(required_permissions_spec(namespace), None, ""@, "namespaces"@, "create"@),
        asks_for(
            required_permissions_spec(namespace),
            None,
            "rbac.authorization.k8s.io"@,
            "clusterroles"@,
            "create"@,
        ),
        asks_for(
            required_permissions_spec(namespace),
            None,
            "rbac.authorization.k8s.io"@,
            "clusterrolebindings"@,
            "create"@,
        ),
        asks_for(required_permissions_spec(namespace), Some(namespace), ""@, "serviceaccounts"@, "create"@),
        asks_for(required_permissions_spec(namespace), Some(namespace), "apps"@, "deployments"@, "create"@),
        asks_for(required_permissions_spec(namespace), Some(namespace), ""@, "services"@, "create"@),
        asks_for(required_permissions_spec(namespace), Some(namespace), "apps"@, "deployments"@, "get"@),
        asks_for(required_permissions_spec(namespace), Some(namespace), ""@, "pods"@, "list"@),
        forall|i: int|
            0 <= i < required_permissions_spec(namespace).len() ==> (#[trigger] required_permissions_spec(
                namespace,
            )[i]).3 is Some && required_permissions_spec(namespace)[i].4.len()
                > required_permissions_spec(namespace)[i].3->0.len()
                && required_permissions_spec(namespace)[i].4.subrange(
                0,
                (required_permissions_spec(namespace)[i].3->0.len() + 1) as int,
            ) == required_permissions_spec(namespace)[i].3->0 + " "@,
{
    let checks = required_permissions_spec(namespace);
    reveal_strlit("create namespaces");
    reveal_strlit("create cluster roles");
    reveal_strlit("create cluster role bindings");
    reveal_strlit("create service accounts");
    reveal_strlit("create deployments");
    reveal_strlit("create services");
    reveal_strlit("get deployments");
    reveal_strlit("list pods");
    reveal_strlit("create");
    reveal_strlit("get");
    reveal_strlit("list");
    reveal_strlit(" ");
    assert(checks[0].4.subrange(0, (checks[0].3->0.len() + 1) as int) =~= checks[0].3->0 + " "@);
    assert(checks[1].4.subrange(0, (checks[1].3->0.len() + 1) as int) =~= checks[1].3->0 + " "@);
    assert(checks[2].4.subrange(0, (checks[2].3->0.len() + 1) as int) =~= checks[2].3->0 + " "@);
    assert(checks[3].4.subrange(0, (checks[3].3->0.len() + 1) as int) =~= checks[3].3->0 + " "@);
    assert(checks[4].4.subrange(0, (checks[4].3->0.len() + 1) as int) =~= checks[4].3->0 + " "@);
    assert(checks[5].4.subrange(0, (checks[5].3->0.len() + 1) as int) =~= checks[5].3->0 + " "@);
    assert(checks[6].4.subrange(0, (checks[6].3->0.len() + 1) as int) =~= checks[6].3->0 + " "@);
    assert(checks[7].4.subrange(0, (checks[7].3->0.len() + 1) as int) =~= checks[7].3->0 + " "@);
    assert(checks[0].0 == None::<Seq<char>>);
    assert(checks[1].0 == None::<Seq<char>>);
    assert(checks[2].0 == None::<Seq<char>>);
    assert(checks[3].0 == Some(namespace));
    assert(checks[4].0 == Some(namespace));
    assert(checks[5].0 == Some(namespace));
    assert(checks[6].0 == Some(namespace));
    assert(checks[7].0 == Some(namespace));
}

/// The status of an access review: whether it is allowed, and why not.
pub struct ReviewStatus {
    pub allowed: bool,
    pub reason: Option<String>,
}

/// Check a specific permission: the review must be answered, with a status, and allowed.
pub fn check_permission(description: &str, outcome: &Result<Option<ReviewStatus>, ApiFailure>) -> (r:
    InstallerResult<()>)
    ensures
        match outcome {
            Err(f) => r matches Err(e) && e@ == ErrorView::Validation(
                "Failed to check permission '"@ + description@ + "': "@ + f.text@,
            ),
            Ok(None) => r matches Err(e) && e@ == ErrorView::Validation(
                "Cannot determine permission status for: "@ + description@,
            ),
            Ok(Some(st)) => if st.allowed {
                r is Ok
            } else {
                r matches Err(e) && e@ == ErrorView::Validation(
                    "Missing permission to "@ + description@ + ": "@ + opt_text(
                        st.reason,
                        "Permission denied"@,
                    ),
                )
            },
        },
{
    match outcome {
        Err(f) => {
            let mut m = String::from_str("Failed to check permission '");
            m.append(description);
            m.append("': ");
            m.append(f.text.as_str());
            Err(InstallerError::ValidationError(m))
        },
        Ok(None) => {
            let mut m = String::from_str("Cannot determine permission status for: ");
            m.append(description);
            Err(InstallerError::ValidationError(m))
        },
        Ok(Some(st)) => {
            if st.allowed {
                Ok(())
            } else {
                let mut m = String::from_str("Missing permission to ");
                m.append(description);
                m.append(": ");
                let reason = text_or(&st.reason, "Permission denied");
                m.append(reason.as_str());
                Err(InstallerError::ValidationError(m))
            }
        },
    }
}

/// The access review for creating CRDs (cluster-wide).
pub fn crd_permission_attributes() -> (a: ResourceAttributesModel)
    ensures
        attributes_view(a) == (
            None::<Seq<char>>,
            Some("apiextensions.k8s.io"@),
            Some("customresourcedefinitions"@),
            Some("create"@),
        ),
{
    attributes(None, "apiextensions.k8s.io", "customresourcedefinitions", "create")
}

/// Check if we have permissions to create CRDs: a review without a status passes,
/// a denied one fails.
pub fn validate_crd_permissions(outcome: &Result<Option<ReviewStatus>, ApiFailure>) -> (r:
    InstallerResult<()>)
    ensures
        match outcome {
            Err(f) => r matches Err(e) && e@ == ErrorView::Validation(
                "Failed to check CRD creation permissions: "@ + f.text@,
            ),
            Ok(None) => r is Ok,
            Ok(Some(st)) => if st.allowed {
                r is Ok
            } else {
                r matches Err(e) && e@ == ErrorView::Validation(
                    "Insufficient permissions to create CRDs. Reason: "@ + opt_text(
                        st.reason,
                        "No reason provided"@,
                    ),
                )
            },
        },
{
    match outcome {
        Err(f) => Err(
            InstallerError::ValidationError(
                text_with_failure("Failed to check CRD creation permissions: ", f),
            ),
        ),
        Ok(None) => Ok(()),
        Ok(Some(st)) => {
            if st.allowed {
                Ok(())
            } else {
                let mut m = String::from_str("Insufficient permissions to create CRDs. Reason: ");
                let reason = text_or(&st.reason, "No reason provided");
                m.append(reason.as_str());
                Err(InstallerError::ValidationError(m))
            }
        },
    }
}

// ---------------------------------------------------------------------------
// Prerequisites
// ---------------------------------------------------------------------------

/// Check if Custom Resource Definitions are supported: listing them must succeed.
pub fn validate_crd_support(outcome: &Result<(), ApiFailure>) -> (r: InstallerResult<()>)
    ensures
        match outcome {
            Ok(()) => r is Ok,
            Err(f) => r matches Err(e) && e@ == ErrorView::Validation(
                "Custom Resource Definitions are not supported or accessible: "@ + f.text@,
            ),
        },
{
    match outcome {
        Ok(()) => Ok(()),
        Err(f) => Err(
            InstallerError::ValidationError(
                text_with_failure("Custom Resource Definitions are not supported or accessible: ", f),
            ),
        ),
    }
}

/// Check for an existing installation: `Ok(true)` when the `wasmcloud-operator`
/// namespace exists, `Ok(false)` when the API says it does not (404), an error otherwise.
pub fn check_existing_installations(outcome: &Result<(), ApiFailure>) -> (r: InstallerResult<bool>)
    ensures
        match outcome {
            Ok(()) => r == Ok::<bool, InstallerError>(true),
            Err(f) => if f.has_code(404) {
                r == Ok::<bool, InstallerError>(false)
            } else {
                r matches Err(e) && e@ == ErrorView::Validation(
                    "Failed to check for existing namespace: "@ + f.text@,
                )
            },
        },
{
    match outcome {
        Ok(()) => Ok(true),
        Err(f) => {
            if f.code == Some(404u16) {
                Ok(false)
            } else {
                Err(
                    InstallerError::ValidationError(
                        text_with_failure("Failed to check for existing namespace: ", f),
                    ),
                )
            }
        },
    }
}

/// What the nodes of the cluster show.
#[derive(Debug, PartialEq, Eq, Structural, Clone, Copy)]
pub enum ResourceAvailability {
    /// The nodes could not be listed (normal where access to nodes is restricted).
    NodesHidden,
    /// No node is visible.
    NoNodes,
    /// Nodes are visible, none of them ready.
    NoReadyNodes,
    /// This many nodes are ready.
    ReadyNodes(usize),
}

/// A node is ready when one of its conditions is `Ready` and `True`.
pub open spec fn node_ready(conditions: Option<Vec<ConditionModel>>) -> bool {
    match conditions {
        Some(cs) => exists|i: int|
            0 <= i < cs@.len() && condition_is(#[trigger] cs@[i], "Ready"@, "True"@),
        None => false,
    }
}

pub open spec fn ready_flags(nodes: Seq<Option<Vec<ConditionModel>>>) -> Seq<bool> {
    Seq::new(nodes.len(), |i: int| node_ready(nodes[i]))
}

/// Validate cluster has sufficient resources: classifies the listed nodes (each given by
/// its conditions, none when it reports no status) by how many are ready. This never fails.
pub fn validate_resource_availability(nodes: &Result<Vec<Option<Vec<ConditionModel>>>, ApiFailure>) -> (r:
    ResourceAvailability)
    ensures
        match nodes {
            Err(_) => r == ResourceAvailability::NodesHidden,
            Ok(ns) => if ns@.len() == 0 {
                r == ResourceAvailability::NoNodes
            } else if count_true(ready_flags(ns@)) == 0 {
                r == ResourceAvailability::NoReadyNodes
            } else {
                r == ResourceAvailability::ReadyNodes(count_true(ready_flags(ns@)) as usize)
            },
        },
{
    match nodes {
        Err(_) => ResourceAvailability::NodesHidden,
        Ok(ns) => {
            if ns.len() == 0 {
                return ResourceAvailability::NoNodes;
            }
            let ghost flags = ready_flags(ns@);
            let mut count: usize = 0;
            let mut i: usize = 0;
            while i < ns.len()
                invariant
                    i <= ns.len(),
                    flags == ready_flags(ns@),
                    count == count_true(flags.subrange(0, i as int)),
                    count <= i,
                decreases ns.len() - i,
            {
                let ready = match &ns[i] {
                    Some(cs) => has_condition(cs, "Ready", "True"),
                    None => false,
                };
                proof {
                    assert(flags.subrange(0, i + 1).drop_last() =~= flags.subrange(0, i as int));
                    lemma_count_true_le_len(flags.subrange(0, i as int));
                }
                if ready {
                    count = count + 1;
                }
                i = i + 1;
            }
            assert(flags.subrange(0, ns.len() as int) =~= flags);
            if count == 0 {
                ResourceAvailability::NoReadyNodes
            } else {
                ResourceAvailability::ReadyNodes(count)
            }
        },
    }
}

} // verus!
