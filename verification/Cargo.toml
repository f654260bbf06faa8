[package]
name = "supernova"
version = "0.1.0"
edition = "2021"
publish = false

[dependencies]
chrono = { version = "*", features = ["serde"] }
clap = "*"
reqwest = { version = "*", default-features = false, features = ["blocking", "rustls-tls"] }
serde = "*"
serde_derive = "*"
serde_json = "*"
