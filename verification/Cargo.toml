[package]
name = "ashfall"
version = "0.1.0"
edition = "2021"
publish = false

[dependencies]
serde = { version = "1", features = ["derive"] }
postcard = { version = "1", features = ["use-std"] }
anyhow = "1"
tokio = { version = "1", features = ["net", "io-util", "rt", "time", "sync"] }
