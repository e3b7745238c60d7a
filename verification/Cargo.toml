[package]
name = "openpasswd"
version = "0.1.0"
edition = "2021"
publish = false

[dependencies]
aes-gcm = "=0.10.3"
axum = "=0.8.9"
chrono = { version = "=0.4.45", default-features = false, features = ["clock", "std"] }
clap = { version = "=4.6.7", features = ["derive"] }
cookie = "=0.18.2"
copypasta = { version = "*", default-features = false, features = ["x11"] }
deadpool-redis = "=0.23.1"
directories = "=6.0.0"
dotenvy = "=0.15.7"
jsonwebtoken = "=9.3.1"
lettre = { version = "=0.11.23", default-features = false, features = ["builder", "smtp-transport", "tokio1-rustls-tls"] }
log = "=0.4.34"
pretty_env_logger = "=0.5.0"
rand = "=0.8.8"
redis = "=1.8.0"
reqwest = { version = "=0.12.28", default-features = false, features = ["json", "rustls-tls"] }
rpassword = "=7.5.4"
rust-argon2 = "=2.1.0"
sea-orm = { version = "=1.1.20", default-features = false, features = ["macros", "sqlx-postgres", "runtime-tokio-rustls"] }
sea-orm-migration = { version = "1.1", default-features = false, features = ["sqlx-postgres", "runtime-tokio-rustls"] }
serde = { version = "=1.0.229", features = ["derive"] }
serde_json = "=1.0.154"
sha2 = "=0.10.9"
tokio = { version = "=1.54.1", features = ["rt-multi-thread", "macros", "signal", "net"] }
tower-http = { version = "=0.7.1", features = ["cors"] }
uuid = { version = "=1.29.0", features = ["v4"] }
validator = { version = "=0.21.0", features = ["derive"] }
