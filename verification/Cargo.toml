[package]
name = "rbac_auth"
version = "0.1.0"
edition = "2021"
publish = false

[dependencies]
argon2 = { version = "=0.5.3", features = ["std"] }
jsonwebtoken = { version = "=11.1.0", features = ["rust_crypto"] }
serde = { version = "*", features = ["derive"] }
serde_json = "*"
actix-web = "*"
diesel = { version = "*", features = ["postgres", "r2d2", "uuid", "chrono"] }
r2d2 = "*"
uuid = { version = "*", features = ["serde", "v4"] }
chrono = { version = "*", features = ["serde"] }
dotenvy = "*"
env_logger = "*"
log = "*"
futures = "*"
