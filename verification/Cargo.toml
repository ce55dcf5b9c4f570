[package]
name = "iamb_worker"
version = "0.1.0"
edition = "2021"
publish = false

[dependencies]
gethostname = "0.4"
matrix-sdk = { version = "0.6", default-features = false, features = ["e2e-encryption", "sled", "rustls-tls"] }
modalkit = "<0.0.12"
serde_json = "1"
tokio = { version = "1", features = ["macros", "net", "rt-multi-thread", "sync", "time"] }
tracing = "0.1"
