[package]
name = "libvencord"
version = "0.1.0"
edition = "2021"
publish = false

[dependencies]
serde_json = "1"
tokio = { version = "1", default-features = false, features = ["fs", "rt", "io-util"] }
reqwest = { version = "*", default-features = false, features = ["json"] }
regex = "1"
dirs = "*"
