[package]
name = "mass_rs"
version = "0.1.0"
edition = "2021"
publish = false

[dependencies]
anyhow = "1"
oauth1-request = "0.6"
reqwest = { version = "0.12", features = ["json", "blocking"] }
serde = { version = "1", features = ["derive"] }
serde_json = "1"
thiserror = "1"
tokio = { version = "1", features = ["macros", "rt-multi-thread"] }
url = "2"
