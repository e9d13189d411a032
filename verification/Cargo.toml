[package]
name = "topgrade"
version = "0.1.0"
edition = "2021"
publish = false

[dependencies]
clap = "*"
directories = "*"
which = "*"
shellexpand = "*"
toml = "*"
serde = { version = "*", features = ["derive"] }
termcolor = "*"
