[package]
name = "watchdiff"
version = "0.1.0"
edition = "2021"
publish = false

[dependencies]
imara-diff = "=0.1.8"
chrono = { version = "=0.4.45", features = ["serde"] }
serde = { version = "1", features = ["derive"] }
serde_json = "=1.0.154"
serde_yaml = "0.9"
kube = { version = "=3.1.0", default-features = false, features = ["client", "runtime", "unstable-runtime"] }
k8s-openapi = { version = "=0.27.1", features = ["latest"] }
axum = "0.7"
tokio = { version = "1", features = ["macros", "rt-multi-thread", "net", "time"] }
futures = "0.3"
futures-core = "0.3"
futures-util = "0.3"
async-stream = "0.3"
merge-streams = "0.1"
askama = "0.12"
tracing-subscriber = "0.3"
