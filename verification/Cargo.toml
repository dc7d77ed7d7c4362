[package]
name = "mcpl_core"
version = "0.1.0"
edition = "2021"
publish = false

[dependencies]
serde_json = { version = "=1.0.151", features = ["preserve_order"] }
tokio = { version = "=1.53.2", default-features = false, features = ["io-util", "net"] }
thiserror = "=1.0.69"
tracing = "=0.1.44"
