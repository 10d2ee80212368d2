[package]
name = "jrss"
version = "0.1.0"
edition = "2021"
publish = false

[dependencies]
reqwest = { version = "0.12", default-features = false, features = ["blocking", "default-tls"] }
rss = { version = "2.0", default-features = false }
