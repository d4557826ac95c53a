[package]
name = "screenshot_processor"
version = "0.2.1"
edition = "2021"
publish = false

[dependencies]
base64 = "*"
clap = { version = "*", features = ["derive"] }
indicatif = { version = "*", features = ["rayon"] }
infer = "*"
rayon = "*"
reqwest = { version = "*", default-features = false, features = ["blocking"] }
serde_json = "*"
url = "*"
