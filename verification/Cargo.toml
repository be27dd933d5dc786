[package]
name = "tinkoff_invest_sdk"
version = "0.1.0"
edition = "2021"
publish = false

[dependencies]
chrono = "0.4"
rust_decimal = "1"
tonic = "*"
prost-types = "*"
tokio = { version = "1", features = ["rt-multi-thread", "macros"] }
