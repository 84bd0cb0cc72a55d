[package]
name = "tips"
version = "0.1.0"
edition = "2021"
publish = false

[dependencies]
atty = "0.2"
chrono = { version = "0.4", features = ["serde"] }
clap = "2"
prettytable-rs = "0.8"
regex = "1"
serde = { version = "1", features = ["derive"] }
serde_yaml = "0.8"
syntect = { version = "4", default-features = false, features = ["default-fancy"] }
uuid = { version = "0.8", features = ["v4", "serde"] }
