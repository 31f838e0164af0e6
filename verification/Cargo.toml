[package]
name = "centichain_validator"
version = "0.1.0"
edition = "2021"
publish = false

[dependencies]
rust_decimal = "=1.43.0"
sp-core = "=38.1.0"
centichain_keypair = "=4.0.6"
rand = "=0.8.8"
chrono = "=0.4.45"
serde = { version = "=1.0.229", features = ["derive"] }
serde_json = "=1.0.154"
serde_with = "=3.24.0"
sysinfo = { version = "*", default-features = false, features = ["system"] }
zip = { version = "*", default-features = false, features = ["deflate"] }
