[package]
name = "tokiobeam_channel"
version = "0.1.0"
edition = "2021"
publish = false

[dependencies]
crossbeam = "=0.7.3"
futures = { version = "=0.3.34", features = ["thread-pool"] }
