[package]
name = "upgo"
version = "0.1.0"
edition = "2021"
publish = false

[dependencies]
chrono = "0.4"
uuid = { version = "1", features = ["v7"] }
rand = "0.8"
argon2 = "0.5"
sha2 = "0.10"
jsonwebtoken = "9"
serde = { version = "1", features = ["derive"] }
serde_json = { version = "1", features = ["preserve_order"] }
lettre = { version = "0.11", default-features = false, features = ["builder", "smtp-transport", "tokio1", "tokio1-rustls-tls"] }
mime_guess = "2"
tokio = { version = "1", features = ["full"] }
axum = "0.8"
sqlx = { version = "0.8", default-features = false, features = ["postgres", "runtime-tokio", "chrono", "uuid", "macros", "migrate"] }
async-trait = "0.1"
reqwest = { version = "0.12", default-features = false, features = ["json", "rustls-tls"] }
async-nats = "0.38"
tracing = "0.1"
tracing-subscriber = { version = "0.3", features = ["env-filter"] }
anyhow = "1"
thiserror = "2"
bytes = "1"
http-body-util = "0.1"
tower-http = { version = "0.6", features = ["cors"] }
rust-embed = "8"
aws-sdk-s3 = "1"
aws-credential-types = "1"
aws-types = "1"
