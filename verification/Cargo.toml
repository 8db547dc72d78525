[package]
name = "pjcr"
version = "0.1.0"
edition = "2021"
publish = false

[dependencies]
confy = "0.6"
reqwest = { version = "0.12", default-features = false, features = ["blocking", "rustls-tls"] }
serde = "1"
serde_derive = "1"
