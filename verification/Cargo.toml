[package]
name = "toshi"
version = "0.1.1"
edition = "2021"
publish = false

[dependencies]
uuid = { version = "=0.8.2", features = ["v4"] }
rand = { version = "=0.7.3", features = ["small_rng"] }
serde = { version = "=1.0.229", features = ["derive"] }
serde_json = "=1.0.154"
serde_urlencoded = "=0.6.1"
bytes = "=0.5.6"
crossbeam = "=0.7.3"
http = "=0.2.12"
hyper = "=0.13.10"
tokio = { version = "=0.2.25", features = ["full"] }
futures = "=0.3.34"
tracing = "=0.1.44"
failure = "=0.1.8"
parking_lot = "=0.10.2"
tonic = "0.1"
