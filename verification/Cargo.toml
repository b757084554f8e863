[package]
name = "chamber_vault"
version = "0.1.0"
edition = "2021"
publish = false

[dependencies]
aes-gcm = "0.10"
nanoid = "0.4"
clap = { version = "4", features = ["derive"] }
