[package]
name = "k8s_operator"
version = "0.1.0"
edition = "2021"
publish = false

[dependencies]
chrono = "=0.4.45"
k8s-openapi = { version = "=0.23.0", features = ["v1_30"] }
kube = { version = "=0.96.0", features = ["runtime", "derive"] }
openraft = { version = "=0.9.25", features = ["serde"] }
tokio = { version = "=1.54.1", features = ["full"] }
tonic = "=0.12.3"
serde = { version = "=1.0.229", features = ["derive"] }
serde_json = "=1.0.154"
thiserror = "=1.0.69"
tracing = "=0.1.44"
futures = "=0.3.34"
http = "=1.5.0"
http-body = "=1.1.0"
http-body-util = "=0.1.5"
bytes = "=1.12.1"
parking_lot = "=0.12.5"
schemars = "=0.8.22"
tower = "=0.4.13"
