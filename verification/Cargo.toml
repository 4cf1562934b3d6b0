[package]
name = "envio-hyperindex-blueprint"
version = "0.1.0"
edition = "2021"
publish = false

[dependencies]
alloy-json-abi = "=1.7.3"
alloy-primitives = "=1.7.3"
alloy-sol-types = "=1.7.3"
anyhow = "=1.0.104"
async-trait = "=0.1.92"
bollard = "=0.21.1"
chrono = "=0.4.45"
fake = "=5.1.0"
futures = "=0.3.34"
k8s-openapi = { version = "=0.27.1", features = ["latest"] }
kube = { version = "=3.1.0", default-features = false, features = ["client", "runtime", "derive"] }
rand = "=0.10.3"
reqwest = { version = "=0.13.5", default-features = false }
rexpect = "=0.7.1"
schemars = "=1.2.3"
serde = { version = "=1.0.229", features = ["derive"] }
serde_json = "=1.0.154"
thiserror = "=2.0.21"
tokio = { version = "=1.54.1", features = ["full"] }
tracing = "=0.1.44"
uuid = { version = "=1.29.0", features = ["v4"] }

[dev-dependencies]
tempfile = "=3.27.0"
