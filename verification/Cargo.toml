[package]
name = "build_worker"
version = "0.1.0"
edition = "2021"
publish = false

[dependencies]
axum = "*"
http-body-util = "*"
serde = { version = "*", features = ["derive"] }
tar = "*"
tempfile = "*"
tokio = { version = "*", features = ["macros", "net", "rt-multi-thread"] }
