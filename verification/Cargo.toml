[package]
name = "newsletter_signup"
version = "0.1.0"
edition = "2021"
publish = false

[dependencies]
rand = "0.8"
uuid = { version = "1", features = ["v4"] }
chrono = { version = "0.4", default-features = false, features = ["clock"] }
serde = { version = "1", features = ["derive"] }
