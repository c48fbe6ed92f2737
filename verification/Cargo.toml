[package]
name = "nanoleaf"
version = "0.1.0"
edition = "2021"
publish = false

[dependencies]
url = "1.7"
serde_json = "1"
serde = { version = "1", features = ["derive"] }
serde_repr = "0.1"
reqwest = { version = "0.9", default-features = false }
futures = "0.1"
log = "0.4"
