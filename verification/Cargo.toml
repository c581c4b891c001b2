[package]
name = "pikadick"
version = "0.1.0"
edition = "2021"
publish = false

[dependencies]
rand = "=0.9.5"
unicase = "=2.10.0"
itoa = "=1.0.18"
url = "=2.5.8"
serenity = { version = "=0.12.5", default-features = false, features = ["utils"] }
serde = { version = "=1.0.229", features = ["derive"] }
toml = "=0.5.11"
twilight-util = { version = "*", features = ["builder"] }
