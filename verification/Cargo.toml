[package]
name = "account_deletion"
version = "0.1.0"
edition = "2021"
publish = false

[dependencies]
argon2-creds = "*"
serde = { version = "*", features = ["derive"] }
actix-web = "*"
actix-identity = "*"
sqlx = { version = "*", features = ["runtime-tokio", "postgres"] }
log = "*"
