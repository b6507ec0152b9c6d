[package]
name = "commonos_files"
version = "0.1.0"
edition = "2021"
publish = false

[dependencies]
base64 = "=0.21.7"
serde = { version = "=1.0.229", features = ["derive"] }
serde_json = "=1.0.154"
reqwest-graphql = "=1.0.0"
tokio = { version = "=1.54.1", features = ["rt-multi-thread", "macros", "time", "signal", "sync"] }
notify = "=6.1.1"
async-channel = "=2.5.0"
futures = "=0.3.34"
lazy_static = "=1.5.1"
dirs-next = "2"
