[package]
name = "tls_fingerprint"
version = "0.1.0"
edition = "2021"
publish = false

[dependencies]
boring = "*"
