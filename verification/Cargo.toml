[package]
name = "cosnarks-zksaas-blueprint-lib"
version = "0.1.0"
edition = "2021"
publish = false

[dependencies]
bincode = "1.3"
color-eyre = "0.6"
crossbeam-channel = "0.5"
hex = "0.4"
rcgen = "0.12"
reqwest = "0.12"
round-based = { version = "0.4", features = ["derive"] }
serde = { version = "1", features = ["derive"] }
serde_json = "1"
sha2 = "0.10"
sled = "0.34"
thiserror = "1"
tokio = { version = "1", features = ["full"] }
tracing = "0.1"
tracing-subscriber = { version = "0.3", features = ["env-filter"] }
url = "2"
