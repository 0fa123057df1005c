[package]
name = "wasmcloud-installer"
version = "0.1.0"
edition = "2021"
publish = false

[dependencies]
anyhow = "=1.0.104"
clap = "=4.6.7"
colored = "=3.1.1"
dirs = "=7.0.0"
indicatif = "=0.18.6"
k8s-openapi = { version = "=0.29.0", features = ["latest"] }
kube = "=5.0.0"
serde = { version = "=1.0.229", features = ["derive"] }
serde_yaml = "=0.9.34"
thiserror = "=2.0.21"
tokio = { version = "=1.54.1", features = ["full"] }
tracing = "=0.1.44"
tracing-subscriber = { version = "=0.3.23", features = ["env-filter"] }
