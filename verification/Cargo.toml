[package]
name = "mkk_basis"
version = "0.1.0"
edition = "2021"
publish = false

[dependencies]
uuid = { version = "=1.29.0", features = ["v4", "serde"] }
email_address = "=0.2.9"
argon2 = "=0.5.3"
chrono = { version = "=0.4.45", default-features = false, features = ["clock", "std"] }
rand = "=0.9.5"
image = { version = "=0.25.10", default-features = false }
http = "=1.5.0"
jsonwebtoken = "=9.3.1"
serde = { version = "=1.0.229", features = ["derive"] }
serde_json = "=1.0.154"
sqlx = { version = "=0.8.6", default-features = false, features = ["runtime-tokio", "postgres", "uuid", "chrono", "macros"] }
axum = { version = "=0.8.9", features = ["multipart"] }
axum-extra = { version = "=0.10.3", features = ["cookie"] }
tokio = { version = "=1.54.1", features = ["rt-multi-thread", "macros", "net", "signal"] }
lettre = { version = "=0.11.23", default-features = false, features = ["builder", "smtp-transport", "hostname", "rustls-tls"] }
clap = { version = "=4.6.7", features = ["derive"] }
env_logger = "=0.11.11"
log = "=0.4.35"
config = { version = "=0.15.27", default-features = false, features = ["yaml"] }
tower-http = { version = "0.6", features = ["cors", "limit", "normalize-path", "fs", "timeout"] }
axum-server = { version = "*", features = ["tls-rustls-no-provider"] }
rustls = { version = "=0.23.46", default-features = false, features = ["ring", "std", "tls12", "logging"] }
rustls-pemfile = "2"
