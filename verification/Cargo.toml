[package]
name = "feature_generator"
version = "0.1.0"
edition = "2021"
publish = false

[dependencies]
clap = { version = "*", features = ["derive"] }
config = "*"
home = "*"
handlebars = "*"
serde = { version = "*", features = ["derive"] }
