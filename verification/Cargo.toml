[package]
name = "gp_network"
version = "0.1.0"
edition = "2021"
publish = false

[dependencies]
hex = "0.4"
rand = "0.9"
anyhow = "1"
serde = { version = "1", features = ["derive"] }
serde_json = "1"
clap = { version = "4", features = ["derive", "env"] }
tokio = { version = "1", features = ["macros", "rt-multi-thread", "net", "time", "sync"] }
reqwest = { version = "0.12", default-features = false, features = ["json"] }
axum = "0.8"
zeroize = "1"
