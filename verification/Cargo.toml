[package]
name = "udmf"
version = "0.1.0"
edition = "2021"
publish = false

[dependencies]
udmf-sys = { version = "=0.1.5", features = ["api-14"] }
ohos-sys-opaque-types = "=0.1.12"
thiserror = "=2.0.21"
