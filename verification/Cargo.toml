[package]
name = "codec_stream"
version = "0.1.0"
edition = "2021"
publish = false

[dependencies]
flate2 = "1"
tokio = { version = "1", default-features = false }
futures-core = "0.3"
