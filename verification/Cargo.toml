[package]
name = "msc-agent"
version = "0.1.3"
edition = "2021"
publish = false

[dependencies]
serde = { version = "1", features = ["derive"] }
serde_json = "1"
sha2 = "0.10"
uuid = { version = "1", features = ["v4"] }
clap = { version = "4", features = ["derive"] }
