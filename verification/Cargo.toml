[package]
name = "yuehai_bookmark"
version = "0.1.0"
edition = "2021"
publish = false

[dependencies]
argon2 = "=0.5.3"
axum = "=0.8.9"
chrono = { version = "=0.4.45", features = ["serde"] }
dotenvy = "=0.15.7"
getrandom = "=0.4.3"
hmac = "=0.13.0"
serde = { version = "=1.0.229", features = ["derive"] }
sha2 = "=0.11.1"
sqlx = { version = "=0.9.0", features = ["postgres", "runtime-tokio", "chrono", "ipnetwork"] }
thiserror = "=2.0.21"
tokio = { version = "=1.54.1", features = ["macros", "rt-multi-thread", "net"] }
