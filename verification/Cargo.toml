[package]
name = "canvas_core"
version = "0.1.0"
edition = "2021"
publish = false

[dependencies]
raqote = { version = "*", default-features = false }
euclid = "*"
image = { version = "*", default-features = false, features = ["png"] }
uuid = { version = "*", features = ["v4"] }
serde = { version = "*", features = ["derive"] }
serde_json = "*"
