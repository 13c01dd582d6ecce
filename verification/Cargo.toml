[package]
name = "couchdb"
version = "0.6.0"
edition = "2021"
publish = false

[dependencies]
url = "=1.7.2"
base64 = "=0.13.1"
serde = { version = "=1.0.229", features = ["derive"] }
serde_json = "=1.0.154"
uuid = "=1.29.0"
mime = "=0.3.17"
semver = "=1.0.28"
regex = "1"
tempdir = "0.3"
