[package]
name = "rigil_proxy"
version = "0.1.0"
edition = "2021"
publish = false

[dependencies]
chrono = "0.4"
htmlescape = "0.3"
hyper = { version = "0.14", features = ["full"] }
reqwest = { version = "0.11", default-features = false }
serde = { version = "1", features = ["derive"] }
serde_json = "1"
tokio = { version = "1", features = ["full"] }
url = "2"
urlencoding = "2"
