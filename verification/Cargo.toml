[package]
name = "calleen"
version = "0.1.0"
edition = "2021"
publish = false

[dependencies]
http = "*"
httpdate = "*"
rand = "*"
url = "*"
reqwest = { version = "*", default-features = false, features = ["json"] }
serde = "*"
serde_json = "*"
tokio = { version = "*", default-features = false, features = ["time"] }
