[package]
name = "edsm"
version = "0.1.0"
edition = "2021"
publish = false

[dependencies]
chrono = "0.4"
elite_journal = "*"
reqwest = { version = "0.11", features = ["blocking", "json"] }
serde = { version = "1", features = ["derive"] }
serde_json = "1"
