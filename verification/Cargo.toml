[package]
name = "email_verification"
version = "0.1.0"
edition = "2021"
publish = false

[dependencies]
rust-argon2 = "*"
rand = "0.8"
hex = "0.4"
chrono = "0.4"
serde = { version = "1", features = ["derive"] }
serde_json = "1"
actix-web = { version = "4", default-features = false, features = ["macros"] }
actix-rt = "2"
listenfd = "1"
