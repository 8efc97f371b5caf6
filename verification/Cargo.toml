[package]
name = "backend"
version = "0.1.0"
edition = "2021"
publish = false

[dependencies]
argon2 = "=0.5.3"
jsonwebtoken = { version = "=10.4.0", default-features = false, features = ["rust_crypto"] }
uuid = { version = "=1.29.1", features = ["v4", "serde"] }
chrono = { version = "=0.4.45", features = ["serde"] }
lettre = { version = "=0.11.23", default-features = false, features = ["builder", "smtp-transport", "pool", "tokio1", "tokio1-native-tls"] }
serde = { version = "=1.0.229", features = ["derive"] }
serde_json = { version = "=1.0.154", features = ["raw_value"] }
rocket = { version = "=0.5.2", features = ["json"] }
rocket_cors = "0.6"
sqlx = { version = "=0.8.6", default-features = false, features = ["mysql", "runtime-tokio", "chrono", "uuid"] }
tokio-util = { version = "=0.7.20", features = ["io"] }
minio = "=0.3.0"
tracing = "=0.1.44"
tracing-subscriber = { version = "=0.3.23", features = ["env-filter", "json"] }
