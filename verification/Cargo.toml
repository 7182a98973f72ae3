[package]
name = "dma_conflicts"
version = "0.1.0"
edition = "2021"
publish = false

[dependencies]
time = { version = "0.3", features = ["serde", "serde-well-known", "formatting", "parsing"] }
serde = { version = "1", features = ["derive"] }
toml = "0.8"
walkdir = "2"
tokio = { version = "1", features = ["macros", "rt-multi-thread"] }
reqwest = { version = "0.12", default-features = false, features = ["json", "rustls-tls"] }
