[package]
name = "k8socks"
version = "0.1.0"
edition = "2021"
publish = false

[dependencies]
base64 = "=0.23.1"
rand = "=0.10.3"
directories = "=6.0.0"
tokio = { version = "*", features = ["full"] }
kube = { version = "*", default-features = false, features = ["client", "config", "runtime", "ws"] }
k8s-openapi = { version = "=0.27.1", features = ["latest"] }
clap = { version = "*", features = ["derive"] }
anyhow = "*"
tracing = "*"
tracing-subscriber = { version = "*", features = ["env-filter"] }
chrono = "*"
colored = "*"
serde = { version = "*", features = ["derive"] }
serde_json = "*"
async-trait = "*"
thiserror = "*"

[dev-dependencies]
regex = "*"
