[package]
name = "axum_tungstenite"
version = "0.1.0"
edition = "2021"
publish = false

[dependencies]
async-trait = "0.1"
axum-core = "0.2"
base64 = "0.13"
bytes = "1"
futures-util = { version = "0.3", default-features = false, features = ["alloc", "sink"] }
http = "0.2"
hyper = "0.14"
sha1 = "0.10"
tokio = { version = "1", features = ["rt"] }
tokio-tungstenite = "0.17"
