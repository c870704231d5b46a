[package]
name = "tetanes_store"
version = "0.1.0"
edition = "2021"
publish = false

[dependencies]
anyhow = "1"
bincode = { version = "2", features = ["serde"] }
clap = { version = "4", features = ["derive"] }
flate2 = "1"
serde = { version = "1", features = ["derive"] }
thiserror = "2"
tracing = "0.1"
