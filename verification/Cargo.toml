[package]
name = "inventory_management"
version = "0.1.0"
edition = "2021"
publish = false

[dependencies]
config = "0.10"
kafka = { version = "0.9", default-features = false }
lazy_static = "1"
log = "0.4"
maplit = "1"
reqwest = { version = "0.10", default-features = false, features = ["rustls-tls"] }
rusoto_core = { version = "0.44", default-features = false, features = ["rustls"] }
rusoto_dynamodb = { version = "0.44", default-features = false, features = ["rustls"] }
schema_registry_converter = "1"
serde = { version = "1", features = ["derive"] }
serde_dynamodb = "0.7"
serde_json = "1"
stackdriver_logger = "0.8"
tokio = { version = "0.2", features = ["full"] }
warp = "0.2"
