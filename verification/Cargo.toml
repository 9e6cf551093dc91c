[package]
name = "otel-opamp-rs"
version = "0.0.8"
edition = "2021"
publish = false

[dependencies]
async-trait = "0.1"
crossbeam-channel = "0.5"
futures-util = "0.3"
libdeflater = "1"
log = "0.4"
prost = "0.12"
rand = "0.8"
reqwest = { version = "0.11", default-features = false }
serde_yaml = "0.9"
subprocess = "0.2"
sysinfo = "0.29"
tokio = { version = "1", features = ["net", "rt", "time"] }
tokio-tungstenite = "0.20"
ulid = "~1.1"
url = "2"
