[package]
name = "surf-disco"
version = "0.1.0"
edition = "2021"
publish = false

[dependencies]
async-std = "1"
async-tungstenite = { version = "0.25", features = ["async-std-runtime"] }
bincode = "1.3"
derivative = "2.2"
futures = "0.3"
hex = "0.4"
serde = { version = "1", features = ["derive"] }
serde_json = "1"
surf = { version = "2.3", default-features = false, features = ["h1-client-no-tls", "middleware-logger", "encoding"] }
tracing = "0.1"
vbs = "0.1"
