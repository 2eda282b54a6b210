[package]
name = "leap_client_rs"
version = "0.1.0"
edition = "2021"
publish = false

[dependencies]
async-compression = { version = "0.4", features = ["tokio", "zlib"] }
async-trait = "0.1"
async-tungstenite = { version = "0.17", features = ["tokio-runtime"] }
futures = "0.3"
log = "0.4"
serde = { version = "1", features = ["derive"] }
serde_json = "1"
tokio = { version = "1", features = ["time", "io-util", "rt", "macros", "net"] }
