[package]
name = "clerk_fapi_rs"
version = "0.1.0"
edition = "2021"
publish = false

[dependencies]
async-trait = "*"
parking_lot = "*"
serde = { version = "*", features = ["derive"] }
serde_json = "*"
