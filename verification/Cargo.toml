[package]
name = "qoi_decode"
version = "0.1.0"
edition = "2021"
publish = false

[dependencies]
anyhow = "*"
md-5 = "*"
zip = { version = "*", default-features = false, features = ["deflate"] }
