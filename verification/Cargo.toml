[package]
name = "aes_config"
version = "0.1.0"
edition = "2021"
publish = false

[dependencies]
aes-gcm = "*"
base64 = "*"
serde = "*"
toml = "*"
clap = { version = "*", features = ["derive"] }
thiserror = "*"
