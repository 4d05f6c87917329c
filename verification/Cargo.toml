[package]
name = "commons"
version = "0.1.0"
edition = "2021"
publish = false

[dependencies]
serde = { version = "=1.0.229", features = ["derive"] }
serde_json = "=1.0.154"
arcstr = { version = "=1.2.0", features = ["serde"] }
arangors = { version = "=0.5.5", default-features = false, features = ["arango3_7"] }
toml = "=0.5.11"
chrono = "=0.4.45"
tokio = { version = "=1.54.1", features = ["sync", "time", "rt", "macros"] }
rand = "=0.8.8"
reqwest = { version = "0.11", default-features = false, features = ["json"] }
