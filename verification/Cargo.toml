[package]
name = "cppup"
version = "0.1.0"
edition = "2021"
publish = false

[dependencies]
anyhow = "1"
chrono = "0.4"
clap = { version = "4", features = ["derive"] }
dirs = "*"
handlebars = "*"
inquire = "*"
regex = "1"
serde = { version = "1", features = ["derive"] }
serde_json = "1"
which = "*"
