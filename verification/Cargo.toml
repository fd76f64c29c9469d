[package]
name = "cross_contract_flipper"
version = "0.1.0"
edition = "2021"
publish = false

[dependencies]
ink = { version = "5", features = ["std"] }
