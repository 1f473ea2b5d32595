[package]
name = "srun"
version = "0.1.0"
edition = "2021"
publish = false

[dependencies]
base64 = "0.22"
hmac = "0.12"
md-5 = "0.10"
sha1 = "0.10"
serde = { version = "1", features = ["derive"] }
serde_json = "1"
if-addrs = "*"
getopts = "0.2"
reqwest = { version = "0.12", default-features = false, features = ["blocking"] }
ureq = { version = "2", default-features = false }
socket2 = "0.5"
