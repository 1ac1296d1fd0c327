[package]
name = "gearbot_api"
version = "0.1.0"
edition = "2021"
publish = false

[dependencies]
base64 = "0.12"
darkredis = "0.7"
flexi_logger = { version = "0.15", features = ["specfile", "ziplogs"] }
form_urlencoded = "1"
futures-util = "0.3"
hyper = "0.13"
hyper-tls = "0.4"
log = "0.4"
rand = "0.7"
serde = { version = "1", features = ["derive"] }
serde_json = "1"
serde_urlencoded = "0.7"
sha-1 = "0.9"
tokio = { version = "0.2", features = ["full"] }
tokio-tungstenite = { version = "0.11", default-features = false }
toml = "0.5"
twilight-model = "0.1"
uuid = { version = "0.8", features = ["v4", "serde"] }
