[package]
name = "image_proxy"
version = "0.1.0"
edition = "2021"
publish = false

[dependencies]
image = { version = "*", default-features = false, features = ["jpeg"] }
reqwest = { version = "*", features = ["blocking"] }
actix-web = { version = "*", default-features = false }
serde_qs = "*"
