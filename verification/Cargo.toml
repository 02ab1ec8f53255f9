[package]
name = "hpi"
version = "0.1.0"
edition = "2021"
publish = false

[dependencies]
image = { version = "0.25", default-features = false, features = ["png", "gif", "jpeg", "webp"] }
zip = { version = "2", default-features = false, features = ["deflate"] }
tempfile = "3"
tide = "0.16"
async-std = { version = "1", features = ["attributes"] }
femme = "2"
serde = { version = "1", features = ["derive"] }
serde_json = "1"
pdfium-render = "0.8"
