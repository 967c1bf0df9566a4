[package]
name = "actioneer"
version = "0.1.0"
edition = "2021"
publish = false

[dependencies]
chrono = "0.4"
serde = { version = "1", features = ["derive"] }
serde_json = "1"
reqwest = { version = "0.12", features = ["json"] }
tokio = { version = "1", features = ["rt-multi-thread", "macros", "time"] }
keyring = "3"
notify-rust = "4"
dirs = "5"
anyhow = "1"
thiserror = "1"
