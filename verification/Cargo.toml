[package]
name = "swr"
version = "0.1.0"
edition = "2021"
publish = false

[dependencies]
parking_lot = "0.12"
serde = "1"
slotmap = "1"
tokio = { version = "1", features = ["rt", "time"] }
