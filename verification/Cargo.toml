[package]
name = "passgen"
version = "0.1.0"
edition = "2021"
publish = false

[dependencies]
rand = "0.8"
zxcvbn = "2"
tabled = "0.14"
serde = "1"
clap = { version = "4", features = ["derive"] }
arboard = { version = "3", default-features = false }
human-panic = "1"
