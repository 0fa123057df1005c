//! How a failure to build the Kubernetes client is reported.
use vstd::prelude::*;
use vstd::string::*;

use crate::error::{ErrorView, InstallerError};
use crate::outcome::{text_with_failure, ApiFailure};
use crate::text::{contains_text, str_contains};

verus! {

/// The client failed because exec-based authentication could not run its tool.
pub open spec fn is_exec_auth_failure(error_message: Seq<char>) -> bool {
    contains_text(error_message, "unable to run auth exec"@) || contains_text(
        error_message,
        "No such file or directory"@,
    )
}

/// Whether the client library's error says that exec-based authentication could not run.
pub fn is_exec_auth_failure_text(error_message: &str) -> (r: bool)
    ensures
        r == is_exec_auth_failure(error_message@),
{
    str_contains(error_message, "unable to run auth exec") || str_contains(
        error_message,
        "No such file or directory",
    )
}

/// Advice for exec-based authentication, when the client came from the default kubeconfig.
pub open spec fn exec_auth_advice() -> Seq<char> {
    "\n\n\
    Your kubeconfig uses exec-based authentication. The authentication tool is missing or not in PATH.\n\n\
    Possible solutions:\n\
    - For Azure (Gardener/AKS): Install Azure CLI: https://docs.microsoft.com/cli/azure/install-azure-cli\n\
    - For AWS (EKS): Install aws-iam-authenticator: https://docs.aws.amazon.com/eks/latest/userguide/install-aws-iam-authenticator.html\n\
    - For GCP (GKE): Install gcloud SDK: https://cloud.google.com/sdk/docs/install\n\
    - Run 'kubectl get nodes' first to test your authentication setup"@
}

/// Advice for exec-based authentication, when the client came from an explicit kubeconfig.
pub open spec fn exec_auth_advice_for_path() -> Seq<char> {
    "\n\n\
    This error typically occurs when the kubeconfig uses exec authentication (e.g., for Azure, AWS, GCP)\n\
    and the required authentication tool is not installed or not in PATH.\n\n\
    Solutions:\n\
    1. Install the required authentication tool:\n\
       - For Azure: Install Azure CLI (az) - https://docs.microsoft.com/cli/azure/install-azure-cli\n\
       - For AWS: Install AWS IAM Authenticator - https://docs.aws.amazon.com/eks/latest/userguide/install-aws-iam-authenticator.html\n\
       - For GCP: Install Google Cloud SDK (gcloud) - https://cloud.google.com/sdk/docs/install\n\
    2. Ensure the tool is in your PATH: which az / which aws-iam-authenticator / which gcloud\n\
    3. Try running the exec command manually to diagnose the issue\n\
    4. Check the kubeconfig file for the exact exec command being used"@
}

/// The message for a client that could not be created from the kubeconfig (at `path`
/// when one was given), from the client library's error message.
pub open spec fn client_creation_message(path: Option<Seq<char>>, error_message: Seq<char>) -> Seq<
    char,
> {
    let head = match path {
        None => "Failed to create Kubernetes client: "@ + error_message,
        Some(p) => "Failed to create Kubernetes client with kubeconfig "@ + p + ": "@
            + error_message,
    };
    if is_exec_auth_failure(error_message) {
        match path {
            None => head + exec_auth_advice(),
            Some(_) => head + exec_auth_advice_for_path(),
        }
    } else {
        head
    }
}

/// The error for a client that could not be created; when exec-based authentication
/// is the cause, the message says how to install the authentication tool.
pub fn client_creation_error(kubeconfig_path: Option<&str>, error_message: &str) -> (e:
    InstallerError)
    ensures
        e@ == ErrorView::KubeConnection(
            client_creation_message(
                match kubeconfig_path {
                    Some(p) => Some(p@),
                    None => None::<Seq<char>>,
                },
                error_message@,
            ),
        ),
{
    let mut m = match kubeconfig_path {
        None => String::from_str("Failed to create Kubernetes client: "),
        Some(p) => {
            let mut h = String::from_str("Failed to create Kubernetes client with kubeconfig ");
            h.append(p);
            h.append(": ");
            h
        },
    };
    m.append(error_message);
    if is_exec_auth_failure_text(error_message) {
        match kubeconfig_path {
            None => m.append(
                "\n\n\
                Your kubeconfig uses exec-based authentication. The authentication tool is missing or not in PATH.\n\n\
                Possible solutions:\n\
                - For Azure (Gardener/AKS): Install Azure CLI: https://docs.microsoft.com/cli/azure/install-azure-cli\n\
                - For AWS (EKS): Install aws-iam-authenticator: https://docs.aws.amazon.com/eks/latest/userguide/install-aws-iam-authenticator.html\n\
                - For GCP (GKE): Install gcloud SDK: https://cloud.google.com/sdk/docs/install\n\
                - Run 'kubectl get nodes' first to test your authentication setup",
            ),
            Some(_) => m.append(
                "\n\n\
                This error typically occurs when the kubeconfig uses exec authentication (e.g., for Azure, AWS, GCP)\n\
                and the required authentication tool is not installed or not in PATH.\n\n\
                Solutions:\n\
                1. Install the required authentication tool:\n\
                   - For Azure: Install Azure CLI (az) - https://docs.microsoft.com/cli/azure/install-azure-cli\n\
                   - For AWS: Install AWS IAM Authenticator - https://docs.aws.amazon.com/eks/latest/userguide/install-aws-iam-authenticator.html\n\
                   - For GCP: Install Google Cloud SDK (gcloud) - https://cloud.google.com/sdk/docs/install\n\
                2. Ensure the tool is in your PATH: which az / which aws-iam-authenticator / which gcloud\n\
                3. Try running the exec command manually to diagnose the issue\n\
                4. Check the kubeconfig file for the exact exec command being used",
            ),
        }
    }
    InstallerError::KubeConnectionError(m)
}

/// The error for a cluster whose version could not be read when testing the connection.
pub fn connection_test_error(failure: &ApiFailure) -> (e: InstallerError)
    ensures
        e@ == ErrorView::KubeConnection("Failed to connect to cluster: "@ + failure.text@),
{
    InstallerError::KubeConnectionError(text_with_failure("Failed to connect to cluster: ", failure))
}

} // verus!
