[package]
name = "credstore"
version = "0.1.0"
edition = "2021"
publish = false

[dependencies]
aes-gcm = "*"
base64 = "*"
dirs = "*"
json = "*"
rusqlite = { version = "*", features = ["bundled"] }
