[package]
name = "database_test"
version = "0.1.0"
edition = "2021"
publish = false

[dependencies]
clap = "2"
postgres = "0.19"
serde = { version = "1", features = ["derive"] }
serde_derive = "1"
serde_yaml = "0.7"
term = "0.5"
