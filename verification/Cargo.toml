[package]
name = "out_server"
version = "0.1.0"
edition = "2021"
publish = false

[dependencies]
argon2 = "0.5"
base64 = "0.21"
chacha20poly1305 = "0.10"
k256 = "0.13"
rand = "0.8"
rand_chacha = "0.3"
serde = { version = "1", features = ["derive"] }
toml = "0.8"
