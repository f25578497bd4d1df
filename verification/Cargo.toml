[package]
name = "concord_core"
version = "0.1.0"
edition = "2021"
publish = false

[dependencies]
chrono = "0.4"
unicode-width = "0.2"
mime_guess = "2.0"
serde = { version = "1.0", features = ["derive"] }
serde_json = "1.0"
toml = "0.8"
tokio = { version = "1", features = ["macros", "rt-multi-thread", "fs", "time"] }
reqwest = { version = "0.12", default-features = false, features = ["json", "multipart", "rustls-tls"] }
crossterm = "0.28"
ratatui = "0.29"
