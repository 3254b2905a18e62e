[package]
name = "warlock"
version = "0.1.0"
edition = "2021"
publish = false

[dependencies]
anyhow = "=1.0.104"
async-trait = "=0.1.92"
axum = "=0.8.9"
firecracker-rs-sdk = { version = "=0.1.0", features = ["_rt-tokio"] }
hostname = "=0.4.2"
reqwest = { version = "=0.12.28", default-features = false, features = ["json"] }
russh = "=0.45.0"
russh-keys = "=0.45.0"
semver = "=1.0.28"
serde = { version = "=1.0.229", features = ["derive"] }
serde_json = "=1.0.154"
ssh-key = { version = "=0.6.7", features = ["ed25519"] }
sysinfo = "=0.33.1"
tokio = { version = "=1.54.1", features = ["full"] }
tower-http = { version = "=0.6.11", features = ["catch-panic", "trace"] }
tracing = "=0.1.44"
tracing-subscriber = { version = "=0.3.23", features = ["env-filter"] }
uuid = { version = "=1.29.0", features = ["v4", "serde"] }
which = "=7.0.3"
