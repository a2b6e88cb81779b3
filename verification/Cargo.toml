[package]
name = "pp7_keylight"
version = "0.1.0"
edition = "2021"
publish = false

[dependencies]
config = "*"
csv = "*"
openrgb = "*"
restson = "*"
serde = { version = "*", features = ["derive"] }
tokio = { version = "*", features = ["rt-multi-thread", "macros", "net", "time"] }
tokio-retry = "*"
