[package]
name = "resample2"
version = "0.1.0"
edition = "2021"
publish = false

[dependencies]
serde = { version = "1", features = ["derive"] }
serde_json = "1"
chrono = "0.4"
dirs = "*"
which = "*"
tokio = { version = "1", features = ["process", "io-util", "rt", "macros"] }
reqwest = { version = "*", default-features = false, features = ["json"] }
