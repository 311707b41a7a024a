[package]
name = "vex"
version = "0.1.0"
edition = "2021"
publish = false

[dependencies]
base64 = "=0.22.1"
bcrypt = "=0.15.1"
chrono = "=0.4.45"
ed25519-dalek = { version = "=2.2.0", features = ["rand_core"] }
flate2 = "=1.1.10"
getrandom = { version = "=0.2.17", features = ["std"] }
hex = "=0.4.3"
hmac = "0.12"
md5 = "=0.7.0"
num-bigint = "=0.4.8"
num-traits = "=0.2.19"
rand = "=0.8.8"
serde_json = "=1.0.154"
sha2 = "=0.10.9"
tiny_http = "=0.12.0"
uuid = { version = "1", features = ["v4"] }
zip = { version = "2", default-features = false, features = ["deflate"] }
