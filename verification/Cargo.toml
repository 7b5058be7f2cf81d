[package]
name = "bakoel_super_admin"
version = "0.1.0"
edition = "2021"
publish = false

[dependencies]
axum = "0.7"
bcrypt = "0.15"
chrono = "0.4"
jsonwebtoken = "9"
serde = { version = "1", features = ["derive"] }
serde_json = { version = "1", features = ["preserve_order", "raw_value"] }
sqlx = { version = "0.8", default-features = false, features = ["mysql", "runtime-tokio", "tls-rustls"] }
tokio = { version = "1", features = ["macros", "net", "rt-multi-thread", "sync"] }
tower-http = { version = "0.5", features = ["cors", "set-header"] }
