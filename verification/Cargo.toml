[package]
name = "tpi"
version = "0.1.0"
edition = "2021"
publish = false

[dependencies]
anyhow = "*"
clap = "*"
clap_complete = "*"
reqwest = { version = "*", default-features = false, features = ["multipart"] }
serde_json = "*"
tokio = { version = "*", default-features = false, features = ["macros", "rt"] }
url = "*"
