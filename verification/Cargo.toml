[package]
name = "amusic"
version = "0.1.0"
edition = "2021"
publish = false

[dependencies]
pem = "=4.0.0"
ring = "=0.17.14"
serde_json = "=1.0.151"
serde = { version = "=1.0.229", features = ["derive"] }
reqwest = { version = "=0.13.5", default-features = false, features = ["blocking", "query"] }

[dev-dependencies]
base64 = "=0.23.1"
