[package]
name = "opsigner"
version = "0.1.0"
edition = "2021"
publish = false

[dependencies]
alloy-primitives = "*"
alloy = { version = "*", default-features = false, features = ["std", "network", "rpc-types", "eips", "signers", "signer-aws"] }
anyhow = "*"
aws-config = { version = "*", default-features = false }
aws-sdk-kms = { version = "*", default-features = false }
axum = "*"
serde = { version = "*", features = ["derive"] }
serde_json = "*"
tokio = { version = "*", features = ["rt-multi-thread", "macros", "net", "signal", "sync", "time"] }
tower-http = { version = "*", features = ["timeout", "trace"] }
tracing = "*"
