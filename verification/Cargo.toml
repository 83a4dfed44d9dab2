[package]
name = "skibidifiles"
version = "0.1.0"
edition = "2021"
publish = false

[dependencies]
argon2 = "*"
clap = { version = "4", features = ["derive"] }
rand = "0.9"
reqwest = { version = "*", default-features = false, features = ["blocking", "json"] }
rocket = { version = "0.5", features = ["json"] }
rs_merkle = "*"
rust-crypto = "*"
serde = { version = "*", features = ["derive"] }
sha2 = "*"
