[package]
name = "grpc_services"
version = "0.1.0"
edition = "2021"
publish = false

[dependencies]
async-stream = "0.3"
clap = { version = "4", features = ["derive", "env"] }
color-eyre = "0.6"
fastrand = "2"
http = "1"
serde = { version = "1", features = ["derive"] }
serde_json = "1"
thiserror = "2"
tokio = { version = "1", features = ["macros", "rt-multi-thread", "sync", "time", "signal"] }
tokio-stream = "0.1"
tonic = "0.14"
tonic-health = "0.14"
tower = "0.5"
tracing = "0.1"
tracing-subscriber = { version = "0.3", features = ["env-filter"] }
uuid = { version = "1", features = ["v7"] }
