[package]
name = "football_sim"
version = "0.1.0"
edition = "2021"
publish = false

[dependencies]
actix-web = "*"
chrono = "*"
itertools = "*"
serde = { version = "*", features = ["derive"] }
