[package]
name = "depot_downloader_gpui"
version = "0.1.0"
edition = "2021"
publish = false

[dependencies]
anyhow = "1"
async-channel = "2"
async-process = "2"
directories = "*"
futures-lite = "2"
qrcode = { version = "*", default-features = false }
regex = "1"
serde = { version = "1", features = ["derive"] }
serde_json = "1"
smol = "2"
ureq = "3"
zip = { version = "*", default-features = false, features = ["deflate"] }
