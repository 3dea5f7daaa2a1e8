[package]
name = "p2p_task"
version = "0.1.0"
edition = "2021"
publish = false

[dependencies]
libp2p = { version = "*", default-features = false }
tokio = { version = "*", features = ["sync", "rt", "macros"] }
anyhow = "*"
async-trait = "*"
futures = "*"
tracing = "*"
