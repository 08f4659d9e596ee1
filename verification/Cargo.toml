[package]
name = "quic_listener"
version = "0.1.0"
edition = "2021"
publish = false

[dependencies]
ring = "*"
quiche = "*"
tokio = { version = "*", features = ["sync", "net", "rt-multi-thread", "time", "macros"] }
parking_lot = "*"
