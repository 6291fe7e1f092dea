[package]
name = "rbac_user"
version = "0.1.0"
edition = "2021"
publish = false

[dependencies]
argon2 = { version = "0.5", features = ["std"] }
rand = "0.8"
url = { version = "2", features = ["serde"] }
serde = { version = "1", features = ["derive"] }
openid = { version = "*", default-features = false }
