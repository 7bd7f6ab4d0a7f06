[package]
name = "layercomp"
version = "0.1.0"
edition = "2021"
publish = false

[dependencies]
image = { version = "*", default-features = false, features = ["png", "jpeg", "gif"] }
random-string = "*"
serde = { version = "*", features = ["derive"] }
serde_json = "*"
