[package]
name = "amqp_broker"
version = "0.1.0"
edition = "2021"
publish = false

[dependencies]
prometheus = { version = "0.13", default-features = false }
lapin = "1"
tokio = { version = "1", features = ["sync", "rt"] }
tokio-amqp = "1"
futures-lite = "1"
async-trait = "0.1"
serde = { version = "1", features = ["derive"] }
bincode = "1"
thiserror = "1"
tracing = "0.1"
once_cell = "1"
