[package]
name = "typst_net_core"
version = "0.1.0"
edition = "2021"
publish = false

[dependencies]
typst = "=0.14.2"
typst-kit = { version = "=0.14.2", default-features = false, features = ["fonts", "embed-fonts"] }
typst-pdf = "=0.14.2"
typst-svg = "=0.14.2"
serde_json = "=1.0.151"
time = { version = "=0.3.55", features = ["local-offset"] }
comemo = "=0.5.1"
