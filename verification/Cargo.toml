[package]
name = "user_access"
version = "0.1.0"
edition = "2021"
publish = false

[dependencies]
names = { version = "*", default-features = false }
serde = { version = "1", features = ["derive"] }
actix-web = { version = "4", default-features = false, features = ["macros"] }
