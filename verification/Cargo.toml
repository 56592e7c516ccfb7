[package]
name = "clishe"
version = "0.1.0"
edition = "2021"
publish = false

[dependencies]
clap = { version = "3.2", default-features = false, features = ["std"] }
rustyline = "10"
shellwords = "1"
