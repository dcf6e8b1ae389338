[package]
name = "placeholdername"
version = "0.1.0"
edition = "2021"
publish = false

[dependencies]
anyhow = "1"
iced = { version = "0.10", default-features = false }
serde = { version = "1", features = ["derive"] }
zbus = "3"
