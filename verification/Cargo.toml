[package]
name = "tiny_bank"
version = "0.1.0"
edition = "2021"
publish = false

[dependencies]
axum = { version = "=0.7.9", features = ["macros"] }
chrono = { version = "=0.4.45", features = ["serde"] }
config = { version = "=0.14.1", default-features = false, features = ["toml"] }
jsonwebtoken = "=9.3.1"
reqwest = { version = "=0.12.28", default-features = false, features = ["json", "rustls-tls"] }
serde = { version = "=1.0.229", features = ["derive"] }
serde_json = "=1.0.154"
sqlx = { version = "=0.8.6", default-features = false, features = ["runtime-tokio", "postgres", "uuid", "chrono", "derive"] }
thiserror = "=1.0.69"
tokio = { version = "=1.54.1", features = ["full"] }
tracing = "=0.1.44"
tracing-subscriber = { version = "=0.3.23", features = ["json"] }
utoipa = { version = "=4.2.3", features = ["uuid", "chrono"] }
utoipa-swagger-ui = { version = "=7.1.0", features = ["axum", "vendored"] }
uuid = { version = "=1.29.0", features = ["v4", "serde"] }

[dev-dependencies]
regex = "=1.13.1"
validator = "=0.18.1"
