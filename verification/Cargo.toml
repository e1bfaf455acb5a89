[package]
name = "embedders"
version = "0.1.0"
edition = "2021"
publish = false

[dependencies]
anyhow = "=1.0.104"
fastembed = { version = "=7.5.0", default-features = false, features = ["ort-load-dynamic", "hf-hub"] }
linkme = "=0.3.37"
prost = "=0.13.5"
tokio = { version = "=1.54.1", features = ["rt", "net", "time"] }
tonic = "=0.13.1"
