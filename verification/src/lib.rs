//! Verified core of the wasmCloud operator installer: the kubeconfig model, the
//! manifests of the operator and its CRDs, and every decision the installer takes on
//! what the cluster answers.
pub mod cli;
pub mod config;
pub mod crds;
pub mod error;
pub mod install;
pub mod kubernetes;
pub mod labels;
pub mod manifests;
pub mod outcome;
pub mod search;
pub mod text;
pub mod validator;
