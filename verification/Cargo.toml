[package]
name = "odoo-operator"
version = "0.1.0"
edition = "2021"
publish = false

[dependencies]
async-trait = "0.1"
futures = "0.3"
gateway-api = "=0.15.0"
k8s-openapi = { version = "=0.24.0", features = ["schemars", "v1_32"] }
kube = { version = "=0.99.0", features = ["admission", "client", "derive", "runtime"] }
rustls = { version = "0.23", default-features = false, features = ["ring", "std", "tls12"] }
schemars = "0.8"
serde = { version = "1", features = ["derive"] }
serde_json = "=1.0.154"
tokio = { version = "1", features = ["macros", "net", "rt-multi-thread", "sync", "time"] }
tokio-rustls = { version = "0.26", default-features = false, features = ["ring", "tls12"] }
tracing = "0.1"
warp = "0.3"
