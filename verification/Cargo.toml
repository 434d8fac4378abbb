[package]
name = "dakko_core"
version = "0.1.0"
edition = "2021"
publish = false

[dependencies]
megalodon = "*"
tokio = { version = "*", features = ["rt-multi-thread", "net", "macros"] }
axum = "*"
open = "*"
parking_lot = "*"
