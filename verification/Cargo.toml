[package]
name = "tunnel_core"
version = "0.1.0"
edition = "2021"
publish = false

[dependencies]
chrono = "0.4"
itertools = "0.10"
clap = "2"
futures = "0.3"
tokio = { version = "1", features = ["rt", "fs"] }
hyper = { version = "0.14", default-features = false }
serde = { version = "1", features = ["derive"] }
serde_json = "1"
err-derive = "0.3"
lazy_static = "1"
ipnetwork = "0.20"
log = "0.4"
log-panics = "2"
libc = "0.2"
