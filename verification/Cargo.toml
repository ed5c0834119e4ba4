[package]
name = "rbx_downloader"
version = "0.1.0"
edition = "2021"
publish = false

[dependencies]
md5 = "0.7"
reqwest = "0.11"
tokio = { version = "1", features = ["full"] }
futures-util = "0.3"
zip = "0.6"
zip-extract = "0.1"
walkdir = "2"
tracing = "0.1"
tracing-subscriber = "0.3"
color-eyre = "0.6"
