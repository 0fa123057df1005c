//! The wasmCloud Custom Resource Definitions, as plain values.
use vstd::prelude::*;
use vstd::string::*;

use crate::error::{ErrorView, InstallerError, InstallerResult};
use crate::labels::{keys_unique, pairs_view, strings_of, strings_view, Labels};
use crate::outcome::{creation_decision, creation_result, creation_view, ApiFailure, CreateStatus};

verus! {

/// One property of the schema: its name, type, and whether unknown fields are kept.
pub struct SchemaPropertyModel {
    pub name: String,
    pub type_: String,
    pub preserve_unknown_fields: bool,
}

/// An OpenAPI schema of an object with the listed properties.
pub struct SchemaModel {
    pub type_: String,
    pub properties: Vec<SchemaPropertyModel>,
}

/// A namespaced CRD with one served and stored version.
pub struct CrdManifest {
    pub name: String,
    pub labels: Labels,
    pub group: String,
    pub kind: String,
    pub plural: String,
    pub singular: String,
    pub short_names: Vec<String>,
    pub scope: String,
    pub version: String,
    pub served: bool,
    pub storage: bool,
    pub schema: SchemaModel,
}

/// Labels that mark every CRD.
pub open spec fn crd_labels_spec() -> Seq<(Seq<char>, Seq<char>)> {
    seq![
        ("app.kubernetes.io/name"@, "wasmcloud-operator"@),
        ("app.kubernetes.io/component"@, "crd"@),
        ("app.kubernetes.io/part-of"@, "wasmcloud"@),
        ("app.kubernetes.io/managed-by"@, "wasmcloud-installer"@),
    ]
}

/// The schema accepts any object whose `spec` and `status` are objects of any shape.
pub open spec fn is_basic_schema(s: SchemaModel) -> bool {
    &&& s.type_@ == "object"@
    &&& s.properties@.len() == 2
    &&& s.properties@[0].name@ == "spec"@
    &&& s.properties@[0].type_@ == "object"@
    &&& s.properties@[0].preserve_unknown_fields
    &&& s.properties@[1].name@ == "status"@
    &&& s.properties@[1].type_@ == "object"@
    &&& s.properties@[1].preserve_unknown_fields
}

/// The manifest describes a namespaced CRD `name` of `group` with these names,
/// version `v1alpha1` served and stored, the basic schema and the CRD labels.
pub open spec fn describes_crd(
    m: CrdManifest,
    name: Seq<char>,
    group: Seq<char>,
    kind: Seq<char>,
    plural: Seq<char>,
    singular: Seq<char>,
    short_names: Seq<Seq<char>>,
) -> bool {
    &&& m.name@ == name
    &&& pairs_view(m.labels@) == crd_labels_spec()
    &&& m.group@ == group
    &&& m.kind@ == kind
    &&& m.plural@ == plural
    &&& m.singular@ == singular
    &&& strings_view(m.short_names@) == short_names
    &&& m.scope@ == "Namespaced"@
    &&& m.version@ == "v1alpha1"@
    &&& m.served
    &&& m.storage
    &&& is_basic_schema(m.schema)
}

/// What `str::to_lowercase` returns for a string: its Unicode lowercase mapping.
pub uninterp spec fn lowercase_of(s: Seq<char>) -> Seq<char>;

/// Calls `str::to_lowercase`. The contract claims only that the result is a function
/// of the argument (named `lowercase_of`); the Unicode case tables are not stated.
#[verifier::external_body]
fn to_lowercase(s: &str) -> (r: String)
    ensures
        r@ == lowercase_of(s@),
{
    s.to_lowercase()
}

/// Get common labels for CRDs
pub fn common_labels() -> (l: Labels)
    ensures
        pairs_view(l@) == crd_labels_spec(),
        keys_unique(pairs_view(l@)),
{
    proof {
        reveal_strlit("app.kubernetes.io/name");
        reveal_strlit("app.kubernetes.io/component");
        reveal_strlit("app.kubernetes.io/part-of");
        reveal_strlit("app.kubernetes.io/managed-by");
        let keys = crd_labels_spec();
        assert(keys[0].0.len() != keys[1].0.len() && keys[0].0.len() != keys[2].0.len()
            && keys[0].0.len() != keys[3].0.len() && keys[1].0.len() != keys[2].0.len()
            && keys[1].0.len() != keys[3].0.len() && keys[2].0.len() != keys[3].0.len());
    }
    let l = vec![
        (String::from_str("app.kubernetes.io/name"), String::from_str("wasmcloud-operator")),
        (String::from_str("app.kubernetes.io/component"), String::from_str("crd")),
        (String::from_str("app.kubernetes.io/part-of"), String::from_str("wasmcloud")),
        (String::from_str("app.kubernetes.io/managed-by"), String::from_str("wasmcloud-installer")),
    ];
    assert(pairs_view(l@) =~= crd_labels_spec());
    l
}

/// Basic OpenAPI schema that accepts any structure
pub fn basic_schema() -> (s: SchemaModel)
    ensures
        is_basic_schema(s),
{
    SchemaModel {
        type_: String::from_str("object"),
        properties: vec![
            SchemaPropertyModel {
                name: String::from_str("spec"),
                type_: String::from_str("object"),
                preserve_unknown_fields: true,
            },
            SchemaPropertyModel {
                name: String::from_str("status"),
                type_: String::from_str("object"),
                preserve_unknown_fields: true,
            },
        ],
    }
}

fn crd(
    name: String,
    group: &str,
    kind: &str,
    plural: &str,
    singular: String,
    short_names: Vec<String>,
) -> (m: CrdManifest)
    ensures
        describes_crd(m, name@, group@, kind@, plural@, singular@, strings_view(short_names@)),
{
    CrdManifest {
        name,
        labels: common_labels(),
        group: String::from_str(group),
        kind: String::from_str(kind),
        plural: String::from_str(plural),
        singular,
        short_names,
        scope: String::from_str("Namespaced"),
        version: String::from_str("v1alpha1"),
        served: true,
        storage: true,
        schema: basic_schema(),
    }
}

/// A runtime CRD (`runtime.wasmcloud.dev`) whose singular name is given.
pub fn runtime_crd_with_singular(plural: &str, kind: &str, singular: &str, short_names: Vec<&str>) -> (m:
    CrdManifest)
    ensures
        describes_crd(
            m,
            plural@ + ".runtime.wasmcloud.dev"@,
            "runtime.wasmcloud.dev"@,
            kind@,
            plural@,
            singular@,
            Seq::new(short_names@.len(), |i: int| short_names@[i]@),
        ),
{
    let mut name = String::from_str(plural);
    name.append(".runtime.wasmcloud.dev");
    crd(
        name,
        "runtime.wasmcloud.dev",
        kind,
        plural,
        String::from_str(singular),
        strings_of(&short_names),
    )
}

/// Helper to create runtime CRDs with the standard pattern: named `<plural>.runtime.wasmcloud.dev`,
/// singular name the lowercase kind.
pub fn create_runtime_crd(plural: &str, kind: &str, short_names: Vec<&str>) -> (m: CrdManifest)
    ensures
        describes_crd(
            m,
            plural@ + ".runtime.wasmcloud.dev"@,
            "runtime.wasmcloud.dev"@,
            kind@,
            plural@,
            lowercase_of(kind@),
            Seq::new(short_names@.len(), |i: int| short_names@[i]@),
        ),
{
    let singular = to_lowercase(kind);
    runtime_crd_with_singular(plural, kind, singular.as_str(), short_names)
}

/// Create WasmCloudHostConfig CRD manifest
pub fn host_config_crd_manifest() -> (m: CrdManifest)
    ensures
        describes_crd(
            m,
            "wasmcloudhostconfigs.runtime.wasmcloud.dev"@,
            "runtime.wasmcloud.dev"@,
            "WasmCloudHostConfig"@,
            "wasmcloudhostconfigs"@,
            "wasmcloudhostconfig"@,
            seq!["wchc"@],
        ),
{
    let shorts = vec![String::from_str("wchc")];
    assert(strings_view(shorts@) =~= seq!["wchc"@]);
    crd(
        String::from_str("wasmcloudhostconfigs.runtime.wasmcloud.dev"),
        "runtime.wasmcloud.dev",
        "WasmCloudHostConfig",
        "wasmcloudhostconfigs",
        String::from_str("wasmcloudhostconfig"),
        shorts,
    )
}

/// Create WasmCloudApplication CRD manifest
pub fn application_crd_manifest() -> (m: CrdManifest)
    ensures
        describes_crd(
            m,
            "wasmcloudapplications.runtime.wasmcloud.dev"@,
            "runtime.wasmcloud.dev"@,
            "WasmCloudApplication"@,
            "wasmcloudapplications"@,
            "wasmcloudapplication"@,
            seq!["wcapp"@],
        ),
{
    let shorts = vec![String::from_str("wcapp")];
    assert(strings_view(shorts@) =~= seq!["wcapp"@]);
    crd(
        String::from_str("wasmcloudapplications.runtime.wasmcloud.dev"),
        "runtime.wasmcloud.dev",
        "WasmCloudApplication",
        "wasmcloudapplications",
        String::from_str("wasmcloudapplication"),
        shorts,
    )
}

/// The legacy CRDs (`runtime.wasmcloud.dev`): name, group, kind, plural, singular, short name.
pub open spec fn legacy_crds_spec() -> Seq<
    (Seq<char>, Seq<char>, Seq<char>, Seq<char>, Seq<char>, Seq<char>),
> {
    seq![
        (
            "wasmcloudhostconfigs.runtime.wasmcloud.dev"@,
            "runtime.wasmcloud.dev"@,
            "WasmCloudHostConfig"@,
            "wasmcloudhostconfigs"@,
            "wasmcloudhostconfig"@,
            "wchc"@,
        ),
        (
            "wasmcloudapplications.runtime.wasmcloud.dev"@,
            "runtime.wasmcloud.dev"@,
            "WasmCloudApplication"@,
            "wasmcloudapplications"@,
            "wasmcloudapplication"@,
            "wcapp"@,
        ),
    ]
}

pub open spec fn describes_legacy_crd(m: CrdManifest, i: int) -> bool {
    let c = legacy_crds_spec()[i];
    describes_crd(m, c.0, c.1, c.2, c.3, c.4, seq![c.5])
}

/// The runtime CRD with plural `plural`, kind `kind` and a single short name.
pub open spec fn describes_runtime_crd(m: CrdManifest, plural: Seq<char>, kind: Seq<char>, short: Seq<char>) -> bool {
    describes_crd(
        m,
        plural + ".runtime.wasmcloud.dev"@,
        "runtime.wasmcloud.dev"@,
        kind,
        plural,
        lowercase_of(kind),
        seq![short],
    )
}

fn runtime_crd_with_short_name(plural: &str, kind: &str, short: &str) -> (m: CrdManifest)
    ensures
        describes_runtime_crd(m, plural@, kind@, short@),
{
    let shorts = vec![short];
    let m = create_runtime_crd(plural, kind, shorts);
    assert(Seq::new(shorts@.len(), |i: int| shorts@[i]@) =~= seq![short@]);
    m
}

/// All wasmCloud CRDs, in the order they are installed: the legacy ones first
/// (WasmCloudHostConfig, WasmCloudApplication), then the runtime ones (Artifact, Host,
/// Workload, WorkloadDeployment, WorkloadReplicaSet).
pub fn crd_manifests() -> (ms: Vec<CrdManifest>)
    ensures
        ms@.len() == 7,
        describes_legacy_crd(ms@[0], 0),
        describes_legacy_crd(ms@[1], 1),
        describes_runtime_crd(ms@[2], "artifacts"@, "Artifact"@, "art"@),
        describes_runtime_crd(ms@[3], "hosts"@, "Host"@, "whost"@),
        describes_runtime_crd(ms@[4], "workloads"@, "Workload"@, "wl"@),
        describes_runtime_crd(ms@[5], "workloaddeployments"@, "WorkloadDeployment"@, "wldep"@),
        describes_runtime_crd(ms@[6], "workloadreplicasets"@, "WorkloadReplicaSet"@, "wlrs"@),
{
    let artifact = runtime_crd_with_short_name("artifacts", "Artifact", "art");
    let host = runtime_crd_with_short_name("hosts", "Host", "whost");
    let workload = runtime_crd_with_short_name("workloads", "Workload", "wl");
    let deployment = runtime_crd_with_short_name(
        "workloaddeployments",
        "WorkloadDeployment",
        "wldep",
    );
    let replica_set = runtime_crd_with_short_name(
        "workloadreplicasets",
        "WorkloadReplicaSet",
        "wlrs",
    );
    vec![
        host_config_crd_manifest(),
        application_crd_manifest(),
        artifact,
        host,
        workload,
        deployment,
        replica_set,
    ]
}

/// The decision after creating a CRD: one that exists already is kept.
pub fn crd_creation_result(crd: &CrdManifest, outcome: &Result<(), ApiFailure>) -> (r:
    InstallerResult<CreateStatus>)
    ensures
        match outcome {
            Ok(()) => r == Ok::<CreateStatus, InstallerError>(CreateStatus::Created),
            Err(f) => if f.has_code(409) {
                r == Ok::<CreateStatus, InstallerError>(CreateStatus::AlreadyExists)
            } else {
                r matches Err(e) && e@ == ErrorView::Installation(
                    "Failed to create "@ + crd.kind@ + " CRD: "@ + f.text@,
                )
            },
        },
        creation_view(r) == creation_decision(crd.kind@ + " CRD"@, *outcome),
{
    let mut subject = crd.kind.clone();
    subject.append(" CRD");
    let r = creation_result(subject.as_str(), outcome);
    proof {
        match outcome {
            Err(f) => {
                assert(("Failed to create "@ + (crd.kind@ + " CRD"@)) + ": "@ + f.text@
                    =~= "Failed to create "@ + crd.kind@ + " CRD: "@ + f.text@) by {
                    reveal_strlit(" CRD");
                    reveal_strlit(": ");
                    reveal_strlit(" CRD: ");
                }
            },
            Ok(_) => {},
        }
    }
    r
}

/// The CRDs whose existence and readiness are checked after installing are the legacy
/// CRDs, which are installed first; the operator's cluster role grants every verb on them.
pub proof fn law_checked_crds_are_installed_and_granted()
    ensures
        crate::install::required_crd_names_spec() == seq![
            legacy_crds_spec()[0].0,
            legacy_crds_spec()[1].0,
        ],
        crate::manifests::operator_rules_spec()[3] == (
            seq![legacy_crds_spec()[0].1],
            seq![legacy_crds_spec()[0].3, legacy_crds_spec()[1].3],
            crate::manifests::all_verbs_spec(),
        ),
        legacy_crds_spec()[0].1 == legacy_crds_spec()[1].1,
{
}

} // verus!
