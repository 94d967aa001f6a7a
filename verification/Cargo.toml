[package]
name = "policy_store"
version = "0.1.0"
edition = "2021"
publish = false

[dependencies]
axum = "=0.8.9"
base64ct = { version = "=1.8.3", features = ["alloc"] }
chrono = "=0.4.45"
deadpool = "=0.13.1"
deadpool-diesel = { version = "=0.7.0", features = ["sqlite"] }
diesel = { version = "=2.3.14", features = ["sqlite"] }
diesel_migrations = "=2.3.2"
jsonwebtoken = { version = "=11.1.0", features = ["rust_crypto"] }
libsqlite3-sys = { version = "=0.38.2", features = ["bundled"] }
serde = { version = "=1.0.229", features = ["derive"] }
serde_json = "=1.0.151"
thiserror = "=2.0.21"
tokio = { version = "=1.53.2", features = ["full"] }
