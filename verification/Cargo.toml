[package]
name = "certify"
version = "0.1.0"
edition = "2021"
publish = false

[dependencies]
rcgen = { version = "=0.13.2", features = ["x509-parser"] }
pem = "=3.0.6"
time = "=0.3.55"

[dev-dependencies]
yasna = { version = "=0.5.2", features = ["bit-vec"] }
bit-vec = "=0.6.3"
x509-parser = "=0.16.0"
