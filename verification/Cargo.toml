[package]
name = "noise_stream"
version = "0.1.0"
edition = "2021"
publish = false

[dependencies]
snow = { version = "=0.10.0", features = ["risky-raw-split"] }
tokio = { version = "=1.53.2", features = ["net", "io-util"] }
