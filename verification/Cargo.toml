[package]
name = "scupt_net"
version = "0.1.0"
edition = "2021"
publish = false

[dependencies]
scupt-util = "*"
tokio = { version = "1", features = ["full"] }
tokio-util = { version = "0.7", features = ["codec"] }
bytes = "1"
futures = "0.3"
async-trait = "0.1"
async-backtrace = "0.2"
tracing = "0.1"
serde = { version = "1", features = ["derive"] }
serde_json = "1"
bincode = "2"
rand = "0.8"
uuid = { version = "1", features = ["v4"] }
scc = "2"
lazy_static = "1"
byteorder = "1"
