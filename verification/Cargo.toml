[package]
name = "navitag"
version = "0.1.0"
edition = "2021"
publish = false

[dependencies]
urlencoding = "2"
image = "0.24"
serde = { version = "1", features = ["derive"] }
serde_json = "1"
reqwest = { version = "0.12", default-features = false, features = ["json", "rustls-tls"] }
tokio = { version = "1", features = ["rt-multi-thread", "macros"] }
lofty = "0.22"
