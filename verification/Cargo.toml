[package]
name = "rustzen_auth"
version = "0.1.0"
edition = "2021"
publish = false

[dependencies]
axum = "=0.8.9"
chrono = "=0.4.45"
figment = { version = "=0.10.19", features = ["env"] }
jsonwebtoken = { version = "=11.1.0", features = ["rust_crypto"] }
once_cell = "=1.21.4"
serde = { version = "=1.0.229", features = ["derive"] }
serde_json = "=1.0.151"
sqlx = { version = "=0.9.0", default-features = false, features = ["runtime-tokio", "postgres", "macros"] }
tokio = { version = "=1.53.2", features = ["full"] }
tower-http = { version = "=0.7.1", features = ["cors", "fs"] }
tracing = "=0.1.44"
