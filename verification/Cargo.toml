[package]
name = "session_lifecycle"
version = "0.1.0"
edition = "2021"
publish = false

[dependencies]
actix-web = { version = "*", default-features = false }
futures = "*"
