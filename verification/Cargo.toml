[package]
name = "newsapi_demo"
version = "0.1.0"
edition = "2021"
publish = false

[dependencies]
hex = "0.4"
image = { version = "0.25", default-features = false }
open = "5"
reqwest = { version = "0.12", features = ["json"] }
serde = { version = "1", features = ["derive"] }
serde_json = "1"
sha2 = "0.10"
thiserror = "2"
tokio = { version = "1", features = ["fs", "rt"] }
