[package]
name = "ip_cameras"
version = "0.1.0"
edition = "2021"
publish = false

[dependencies]
async-trait = "0.1"
chrono = { version = "0.4", default-features = false, features = ["std"] }
regex = "1"
reqwest = { version = "0.11", default-features = false }
serde = { version = "1", features = ["derive"] }
serde_json = "1"
serde-xml-rs = "0.6"
serde_url_params = "0.2"
thiserror = "1"
tokio = { version = "1", features = ["process", "time", "rt", "macros"] }
xml-rs = "0.8"
