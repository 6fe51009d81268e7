[package]
name = "dictate"
version = "0.1.0"
edition = "2021"
publish = false

[dependencies]
anyhow = "1"
arboard = "3"
cpal = "0.17"
dotenvy = "0.15"
enigo = "0.6"
futures-util = { version = "0.3", features = ["sink"] }
reqwest = { version = "0.12", default-features = false, features = ["json", "rustls-tls"] }
rubato = "0.16"
serde = { version = "1", features = ["derive"] }
serde_json = "1"
tokio = { version = "1", features = ["sync", "time", "macros", "rt-multi-thread"] }
tokio-tungstenite = { version = "0.28", features = ["rustls-tls-webpki-roots"] }
