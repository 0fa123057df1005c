//! What the Kubernetes API answered, as plain values, and the decisions taken on it.
use vstd::prelude::*;
use vstd::string::*;

use crate::error::{ErrorView, InstallerError, InstallerResult};

verus! {

/// A failed API call: the HTTP status of an API error response (none for transport
/// and client errors), and the error's text.
pub struct ApiFailure {
    pub code: Option<u16>,
    pub text: String,
}

impl ApiFailure {
    /// The API answered with the given status code.
    pub open spec fn has_code(&self, code: u16) -> bool {
        self.code == Some(code)
    }
}

/// A status condition of a Kubernetes object (deployment, pod, node or CRD).
pub struct ConditionModel {
    pub type_: String,
    pub status: String,
    pub reason: Option<String>,
    pub message: Option<String>,
}

/// The condition has the given type and status.
pub open spec fn condition_is(c: ConditionModel, type_: Seq<char>, status: Seq<char>) -> bool {
    c.type_@ == type_ && c.status@ == status
}

/// Whether some condition has the given type and status.
pub fn has_condition(conditions: &Vec<ConditionModel>, type_: &str, status: &str) -> (r: bool)
    ensures
        r == exists|i: int|
            0 <= i < conditions@.len() && condition_is(#[trigger] conditions@[i], type_@, status@),
{
    let want_type = String::from_str(type_);
    let want_status = String::from_str(status);
    let mut i: usize = 0;
    while i < conditions.len()
        invariant
            i <= conditions.len(),
            want_type@ == type_@,
            want_status@ == status@,
            forall|j: int| 0 <= j < i ==> !condition_is(#[trigger] conditions@[j], type_@, status@),
        decreases conditions.len() - i,
    {
        if conditions[i].type_ == want_type && conditions[i].status == want_status {
            assert(condition_is(conditions@[i as int], type_@, status@));
            return true;
        }
        i = i + 1;
    }
    false
}

/// How a create call ended well: the object was made, or it was there already.
#[derive(Debug, PartialEq, Eq, Structural)]
pub enum CreateStatus {
    Created,
    AlreadyExists,
}

/// The text of an optional string, or `fallback` when there is none.
pub open spec fn opt_text(o: Option<String>, fallback: Seq<char>) -> Seq<char> {
    match o {
        Some(s) => s@,
        None => fallback,
    }
}

/// The optional string, or `fallback` when there is none.
pub fn text_or(o: &Option<String>, fallback: &str) -> (s: String)
    ensures
        s@ == opt_text(*o, fallback@),
{
    match o {
        Some(s) => s.clone(),
        None => String::from_str(fallback),
    }
}

/// `prefix + detail`, where detail is the API failure's text.
pub fn text_with_failure(prefix: &str, failure: &ApiFailure) -> (s: String)
    ensures
        s@ == prefix@ + failure.text@,
{
    let mut s = String::from_str(prefix);
    s.append(failure.text.as_str());
    s
}

/// The decision after creating `subject`, as a value: made, kept because it exists (409),
/// or an installation error.
pub open spec fn creation_decision(subject: Seq<char>, outcome: Result<(), ApiFailure>) -> Result<
    CreateStatus,
    ErrorView,
> {
    match outcome {
        Ok(()) => Ok(CreateStatus::Created),
        Err(f) => if f.has_code(409) {
            Ok(CreateStatus::AlreadyExists)
        } else {
            Err(ErrorView::Installation("Failed to create "@ + subject + ": "@ + f.text@))
        },
    }
}

/// The mathematical value of a creation result.
pub open spec fn creation_view(r: InstallerResult<CreateStatus>) -> Result<CreateStatus, ErrorView> {
    match r {
        Ok(s) => Ok(s),
        Err(e) => Err(e@),
    }
}

/// The decision after creating an object: a conflict (409) means that it exists
/// already and is no failure; any other failure is an installation error.
pub fn creation_result(subject: &str, outcome: &Result<(), ApiFailure>) -> (r: InstallerResult<
    CreateStatus,
>)
    ensures
        match outcome {
            Ok(()) => r == Ok::<CreateStatus, InstallerError>(CreateStatus::Created),
            Err(f) => if f.has_code(409) {
                r == Ok::<CreateStatus, InstallerError>(CreateStatus::AlreadyExists)
            } else {
                r matches Err(e) && e@ == ErrorView::Installation(
                    "Failed to create "@ + subject@ + ": "@ + f.text@,
                )
            },
        },
        creation_view(r) == creation_decision(subject@, *outcome),
{
    match outcome {
        Ok(()) => Ok(CreateStatus::Created),
        Err(f) => {
            if f.code == Some(409u16) {
                Ok(CreateStatus::AlreadyExists)
            } else {
                let mut m = String::from_str("Failed to create ");
                m.append(subject);
                m.append(": ");
                m.append(f.text.as_str());
                Err(InstallerError::InstallationError(m))
            }
        },
    }
}

} // verus!
