[package]
name = "operator_framework"
version = "0.1.0"
edition = "2021"
publish = false

[dependencies]
anyhow = "1"
async-trait = "0.1"
chrono = "0.4"
either = "1"
futures = "0.3"
k8s-openapi = { version = "0.20", features = ["v1_28"] }
kube = "0.87"
log = "0.4"
serde = { version = "1", features = ["derive"] }
sha1 = "0.10"
