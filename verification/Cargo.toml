[package]
name = "mix_fetch"
version = "0.1.0"
edition = "2021"
publish = false

[dependencies]
rand = "=0.8.8"
futures = "=0.3.34"
httpcodec = "=0.2.3"
bytecodec = "=0.4.15"
fastbloom-rs = "=0.5.10"
reqwest = { version = "0.12", default-features = false, features = ["json"] }
serde = { version = "1", features = ["derive"] }
serde_json = "1"
