[package]
name = "node_diagnostics"
version = "0.1.0"
edition = "2021"
publish = false

[dependencies]
serde = { version = "1", features = ["derive"] }
thiserror = "2"
tokio = { version = "1", features = ["time", "rt", "macros"] }
libra = "0.1.0"
