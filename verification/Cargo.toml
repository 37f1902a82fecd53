[package]
name = "cosmic-applet-ollama"
version = "0.1.0"
edition = "2021"
publish = false

[dependencies]
futures-util = "0.3"
i18n-embed = { version = "*", features = ["fluent-system", "desktop-requester"] }
i18n-embed-fl = "*"
reqwest = { version = "0.12", features = ["json", "stream"] }
rust-embed = "*"
serde = { version = "1", features = ["derive"] }
serde_json = "1"
tokio = { version = "1", features = ["rt", "sync", "time"] }
urlencoding = "2"
