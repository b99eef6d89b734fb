[package]
name = "tokenwrapper"
version = "0.1.0"
edition = "2021"
publish = false

[dependencies]
cosmwasm-std = "1.0.0"
cw2 = "0.13.4"
cw20 = "0.13.4"
cw20-base = { version = "0.13.4", features = ["library"] }
cw-storage-plus = "0.13.4"
serde = { version = "1", default-features = false, features = ["derive"] }
