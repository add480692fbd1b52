[package]
name = "lib_rest_core"
version = "0.1.0"
edition = "2021"
publish = false

[dependencies]
axum = "*"
paste = "*"
serde = { version = "*", features = ["derive"] }
uuid = { version = "*", features = ["v4"] }
