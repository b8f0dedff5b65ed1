[package]
name = "wxc_common"
version = "0.1.0"
edition = "2021"
publish = false

[dependencies]
serde = { version = "1", features = ["derive"] }
serde_json = "1"
semver = "1"
url = "2"
base64 = "0.22"
clap = { version = "4", features = ["derive"] }
