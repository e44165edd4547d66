[package]
name = "tokio-sticky-channel"
version = "0.1.0"
edition = "2021"
publish = false

[dependencies]
thiserror = "*"
tokio = { version = "1", default-features = false, features = ["sync"] }
