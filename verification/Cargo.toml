[package]
name = "clusterflux_coordinator"
version = "0.1.0"
edition = "2021"
publish = false

[dependencies]
base64 = "0.22"
clap = { version = "4", features = ["derive"] }
getrandom = "0.3"
postgres = { version = "0.19", features = ["with-serde_json-1"] }
serde = { version = "1", features = ["derive"] }
serde_json = "1"
wasmparser = "*"
