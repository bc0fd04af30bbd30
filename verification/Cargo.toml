[package]
name = "memoized_kerney"
version = "0.1.0"
edition = "2021"
publish = false

[dependencies]
geographiclib-rs = "0.2"
moka = { version = "0.12", features = ["sync"] }
seahash = "4"
tokio = { version = "1", features = ["sync", "time"] }
