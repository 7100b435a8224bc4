[package]
name = "korangar"
version = "0.1.0"
edition = "2021"
publish = false

[dependencies]
hashbrown = "0.15"
encoding_rs = "0.8"
flate2 = "1"
blake3 = "1"
serde = { version = "1", features = ["derive"] }
ron = "0.8"
rand_aes = "*"
tokio = { version = "1", features = ["full"] }
winit = "0.30"
mlua = { version = "0.10", features = ["lua54", "vendored"] }
