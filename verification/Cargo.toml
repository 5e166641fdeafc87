[package]
name = "sutra_erp"
version = "0.1.0"
edition = "2021"
publish = false

[dependencies]
uuid = { version = "1", features = ["v4", "v7", "serde"] }
chrono = { version = "0.4", features = ["serde"] }
rust_decimal = "1"
argon2 = "0.5"
serde = { version = "1", features = ["derive"] }
serde_json = "1"
thiserror = "1"
jsonwebtoken = "9"
sqlx = { version = "0.8", default-features = false, features = ["postgres", "runtime-tokio", "uuid", "chrono", "rust_decimal"] }
axum = "0.8"
tower-http = { version = "0.6", features = ["cors", "trace"] }
async-trait = "0.1"
tracing = "0.1"
