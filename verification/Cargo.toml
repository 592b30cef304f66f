[package]
name = "ghrr"
version = "0.0.1"
edition = "2021"
publish = false

[dependencies]
anyhow = "=1.0.104"
chrono = "=0.4.45"
clap = { version = "=4.6.7", features = ["derive"] }
csv = "=1.4.0"
indicatif = "=0.18.6"
octocrab = "=0.47.1"
serde = { version = "=1.0.229", features = ["derive"] }
thiserror = "=2.0.21"
tokio = { version = "=1.54.1", features = ["macros", "rt-multi-thread", "time"] }

[dev-dependencies]
serde_json = "=1.0.154"
