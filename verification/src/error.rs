//! The installer's error type.
use vstd::prelude::*;
use vstd::string::*;

verus! {

/// Every way the installer can fail; each variant carries its message.
#[derive(Debug)]
pub enum InstallerError {
    KubeconfigError(String),
    KubeConnectionError(String),
    ValidationError(String),
    InstallationError(String),
    TimeoutError(String),
    IoError(String),
    SerializationError(String),
    KubeError(String),
}

pub type InstallerResult<T> = Result<T, InstallerError>;

/// The mathematical value of an [`InstallerError`]: its variant and its message.
pub enum ErrorView {
    Kubeconfig(Seq<char>),
    KubeConnection(Seq<char>),
    Validation(Seq<char>),
    Installation(Seq<char>),
    Timeout(Seq<char>),
    Io(Seq<char>),
    Serialization(Seq<char>),
    Kube(Seq<char>),
}

impl View for InstallerError {
    type V = ErrorView;

    open spec fn view(&self) -> ErrorView {
        match self {
            InstallerError::KubeconfigError(m) => ErrorView::Kubeconfig(m@),
            InstallerError::KubeConnectionError(m) => ErrorView::KubeConnection(m@),
            InstallerError::ValidationError(m) => ErrorView::Validation(m@),
            InstallerError::InstallationError(m) => ErrorView::Installation(m@),
            InstallerError::TimeoutError(m) => ErrorView::Timeout(m@),
            InstallerError::IoError(m) => ErrorView::Io(m@),
            InstallerError::SerializationError(m) => ErrorView::Serialization(m@),
            InstallerError::KubeError(m) => ErrorView::Kube(m@),
        }
    }
}

/// The text a user sees for an error: a label for its kind, then its message.
pub open spec fn error_text(e: ErrorView) -> Seq<char> {
    match e {
        ErrorView::Kubeconfig(m) => "Kubeconfig error: "@ + m,
        ErrorView::KubeConnection(m) => "Kubernetes connection error: "@ + m,
        ErrorView::Validation(m) => "Validation error: "@ + m,
        ErrorView::Installation(m) => "Installation error: "@ + m,
        ErrorView::Timeout(m) => "Timeout waiting for deployment: "@ + m,
        ErrorView::Io(m) => "IO error: "@ + m,
        ErrorView::Serialization(m) => "Serialization error: "@ + m,
        ErrorView::Kube(m) => "Kubernetes API error: "@ + m,
    }
}

/// The message of an error, without its label.
pub open spec fn error_detail(e: ErrorView) -> Seq<char> {
    match e {
        ErrorView::Kubeconfig(m) => m,
        ErrorView::KubeConnection(m) => m,
        ErrorView::Validation(m) => m,
        ErrorView::Installation(m) => m,
        ErrorView::Timeout(m) => m,
        ErrorView::Io(m) => m,
        ErrorView::Serialization(m) => m,
        ErrorView::Kube(m) => m,
    }
}

fn labelled(label: &str, detail: &String) -> (s: String)
    ensures
        s@ == label@ + detail@,
{
    let mut s = String::from_str(label);
    s.append(detail.as_str());
    s
}

impl InstallerError {
    /// The text shown for this error.
    pub fn message(&self) -> (s: String)
        ensures
            s@ == error_text(self@),
    {
        match self {
            InstallerError::KubeconfigError(m) => labelled("Kubeconfig error: ", m),
            InstallerError::KubeConnectionError(m) => labelled("Kubernetes connection error: ", m),
            InstallerError::ValidationError(m) => labelled("Validation error: ", m),
            InstallerError::InstallationError(m) => labelled("Installation error: ", m),
            InstallerError::TimeoutError(m) => labelled("Timeout waiting for deployment: ", m),
            InstallerError::IoError(m) => labelled("IO error: ", m),
            InstallerError::SerializationError(m) => labelled("Serialization error: ", m),
            InstallerError::KubeError(m) => labelled("Kubernetes API error: ", m),
        }
    }

    /// The error for a kubeconfig file that could not be read.
    pub fn kubeconfig_read_failure(detail: &str) -> (e: InstallerError)
        ensures
            e@ == ErrorView::Kubeconfig("Failed to read kubeconfig file: "@ + detail@),
    {
        let mut m = String::from_str("Failed to read kubeconfig file: ");
        m.append(detail);
        InstallerError::KubeconfigError(m)
    }

    /// The error for a home directory that could not be found.
    pub fn home_directory_missing() -> (e: InstallerError)
        ensures
            e@ == ErrorView::Kubeconfig("Could not find home directory"@),
    {
        InstallerError::KubeconfigError(String::from_str("Could not find home directory"))
    }

    /// The error for a kubeconfig file whose YAML could not be parsed.
    pub fn kubeconfig_parse_failure(detail: &str) -> (e: InstallerError)
        ensures
            e@ == ErrorView::Kubeconfig("Failed to parse kubeconfig YAML: "@ + detail@),
    {
        let mut m = String::from_str("Failed to parse kubeconfig YAML: ");
        m.append(detail);
        InstallerError::KubeconfigError(m)
    }
}

} // verus!
