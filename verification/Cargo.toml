[package]
name = "outbound_rpc"
version = "0.1.0"
edition = "2021"
publish = false

[dependencies]
futures = "0.3"
libp2p = { version = "0.52", default-features = false }
tokio-util = { version = "0.7", features = ["codec", "compat"] }
