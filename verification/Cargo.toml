[package]
name = "auth_rs"
version = "0.1.0"
edition = "2021"
publish = false

[dependencies]
actix-web = { version = "4", default-features = false, features = ["macros"] }
argon2 = "0.5"
chrono = "0.4"
futures = "0.3"
log = "0.4"
mongodb = "2"
serde = { version = "1", features = ["derive"] }
uuid = { version = "1", features = ["v4"] }
