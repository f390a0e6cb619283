[package]
name = "wascc_provider"
version = "0.1.0"
edition = "2021"
publish = false

[dependencies]
anyhow = "=1.0.104"
async-trait = "=0.1.92"
chrono = "=0.4.45"
kube = "=0.33.0"
kubelet = "=0.2.1"
log = "=0.4.35"
rmp = "=0.8.10"
serde = { version = "=1.0.229", features = ["derive"] }
simplelog = "=0.8.0"
tempfile = "=3.27.0"
tokio = { version = "=0.2.25", features = ["full"] }
wapc-guest = "=0.4.0"
wasmcloud-actor-blobstore = { version = "=0.2.2", features = ["guest"] }
wasmcloud-actor-core = { version = "=0.2.3", features = ["guest"] }
wasmcloud-actor-http-server = { version = "=0.1.2", features = ["guest"] }
wasmcloud-actor-logging = { version = "=0.1.2", features = ["guest"] }
wasmcloud-provider-core = "=0.1.1"
