[package]
name = "llm_kit"
version = "0.1.0"
edition = "2021"
publish = false

[dependencies]
base64 = "0.22"
serde = { version = "1", features = ["derive"] }
serde_json = "1"
thiserror = "2"
tokio = { version = "1", features = ["time", "rt", "macros", "sync"] }
tokio-util = "0.7"
futures = "0.3"
async-trait = "0.1"
log = "0.4"
