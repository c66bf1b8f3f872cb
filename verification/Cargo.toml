[package]
name = "libveezi"
version = "0.3.0"
edition = "2021"
publish = false

[dependencies]
url = "2"
chrono = { version = "0.4", features = ["serde"] }
serde = { version = "1", features = ["derive"] }
reqwest = { version = "0.12", default-features = false, features = ["blocking", "json", "rustls-tls"] }
dotenv = "0.15"
