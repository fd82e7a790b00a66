[package]
name = "dandidav"
version = "0.1.0"
edition = "2021"
publish = false

[dependencies]
anyhow = "1"
axum = { version = "0.7", default-features = false }
futures-util = "0.3"
thiserror = "1"
tracing = "0.1"
xml-rs = "0.8"
