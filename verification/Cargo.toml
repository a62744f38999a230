[package]
name = "auth_server"
version = "0.1.0"
edition = "2021"
publish = false

[dependencies]
rust-argon2 = "2"
jsonwebtoken = "9"
serde_json = { version = "1", features = ["preserve_order"] }
serde = { version = "1", features = ["derive"] }
chrono = "0.4"
cookie = "0.16"
rand = "0.8"
uuid = { version = "1", features = ["v4"] }
actix-web = { version = "4", default-features = false, features = ["macros", "cookies"] }
actix-rt = "2"
actix-session = "*"
actix-limitation = "*"
sqlx = { version = "0.7", default-features = false, features = ["runtime-tokio-rustls", "postgres"] }
reqwest = { version = "0.11", default-features = false, features = ["rustls-tls"] }
clap = "3"
colored = "2"
env_logger = "0.10"
log = "0.4"
