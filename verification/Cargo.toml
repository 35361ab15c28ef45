[package]
name = "papers"
version = "0.1.0"
edition = "2021"
publish = false

[dependencies]
tera = { version = "=1.20.1", default-features = false }
serde_json = "=1.0.151"
uuid = { version = "=1.4.1", features = ["v4"] }
chrono = "=0.4.45"
mktemp = "=0.5.1"
tar = "*"
reqwest = { version = "=0.13.5", default-features = false, features = ["blocking", "json"] }
