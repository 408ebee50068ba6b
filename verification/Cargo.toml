[package]
name = "toolchain_pipeline"
version = "0.1.0"
edition = "2021"
publish = false

[dependencies]
log = "=0.4.34"
semver = "=1.0.28"
serde = { version = "=1.0.229", features = ["derive"] }
serde_json = "=1.0.154"
tokio = { version = "1", default-features = false, features = ["sync"] }
