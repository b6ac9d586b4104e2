[package]
name = "auth_core"
version = "0.1.0"
edition = "2021"
publish = false

[dependencies]
actix-cors = "0.7"
actix-web = { version = "4", default-features = false, features = ["macros", "cookies"] }
anyhow = "1"
argon2 = "0.5"
askama = "0.12"
chrono = "0.4"
dotenvy = "0.15"
env_logger = "0.11"
futures-util = "0.3"
hmac = "0.12"
lettre = { version = "0.11", default-features = false, features = ["builder", "smtp-transport", "rustls-tls"] }
rand = "0.8"
serde = { version = "1", features = ["derive"] }
serde_json = "1"
sha2 = "0.10"
sqlx = { version = "0.8", default-features = false, features = ["postgres", "runtime-tokio", "uuid", "chrono"] }
tracing = "0.1"
uuid = { version = "1", features = ["v4"] }
validator = "0.16"
