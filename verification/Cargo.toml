[package]
name = "portfolio"
version = "0.1.0"
edition = "2021"
publish = false

[dependencies]
actix-web = { version = "4", default-features = false, features = ["macros"] }
iced = { version = "0.10", default-features = false }
serde_json = "1"
