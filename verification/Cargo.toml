[package]
name = "weather"
version = "0.1.0"
edition = "2021"
publish = false

[dependencies]
chrono = "0.4"
clap = { version = "4", features = ["derive"] }
confy = "0.5"
serde = { version = "1", features = ["derive"] }
ureq = { version = "2", features = ["json"] }
