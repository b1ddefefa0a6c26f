[package]
name = "clubhouse"
version = "0.1.0"
edition = "2021"
publish = false

[dependencies]
base64 = "0.22"
image = { version = "0.25", default-features = false, features = ["png"] }
log = "0.4"
screenshots = "0.8"
serde = { version = "1", features = ["derive"] }
tiny_http = "0.12"
