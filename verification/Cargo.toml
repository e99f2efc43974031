[package]
name = "filesync"
version = "0.1.0"
edition = "2021"
publish = false

[dependencies]
ansi_term = "*"
futures = "*"
reqwest = { version = "*", default-features = false }
sha2 = "*"
shellexpand = "*"
tokio = { version = "*", features = ["rt-multi-thread", "macros", "fs", "io-util"] }
