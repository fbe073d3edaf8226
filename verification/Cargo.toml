[package]
name = "concatter"
version = "1.0.0"
edition = "2021"
publish = false

[dependencies]
chashmap = "2"
clap = "2"
rayon = "1"
reqwest = { version = "0.9", default-features = false }
serde_json = "1"
tiny_http = "0.6"
