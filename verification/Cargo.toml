[package]
name = "auth0_mgmt_api"
version = "0.1.0"
edition = "2021"
publish = false

[dependencies]
reqwest = { version = "=0.12.28", features = ["json"] }
secrecy = "=0.10.3"
serde = { version = "=1.0.229", features = ["derive"] }
serde_json = "=1.0.154"
serde_urlencoded = "=0.7.1"
thiserror = "=2.0.21"
tokio = { version = "=1.54.1", features = ["rt", "sync", "time"] }
url = "=2.5.8"
urlencoding = "=2.1.3"
