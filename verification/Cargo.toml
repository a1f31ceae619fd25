[package]
name = "openmobilemaps_rs"
version = "0.1.0"
edition = "2021"
publish = false

[dependencies]
anyhow = "=1.0.104"
euclid = "=0.22.14"
gl = "=0.14.0"
image = "=0.24.9"
log = "=0.4.34"
serde_json = "=1.0.154"
serde_urlencoded = "=0.7.1"
surfman = "=0.9.8"
tokio = { version = "=1.54.1", default-features = false, features = ["rt", "rt-multi-thread"] }
ureq = "=2.12.1"
url = "=2.5.8"
