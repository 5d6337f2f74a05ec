[package]
name = "ambient_network"
version = "0.1.0"
edition = "2021"
publish = false

[dependencies]
ambient_proxy = "=0.2.6"
ambient_rpc = "=0.2.1"
anyhow = "=1.0.104"
bincode = "=1.3.3"
bytes = "=1.12.1"
flume = "=0.10.14"
futures = "=0.3.34"
log = "=0.4.34"
once_cell = "=1.21.4"
parking_lot = "=0.12.5"
quinn = "=0.10.2"
serde = { version = "=1.0.229", features = ["derive"] }
tokio = { version = "=1.54.1", features = ["rt", "rt-multi-thread", "macros", "time", "io-util", "sync"] }
