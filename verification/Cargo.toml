[package]
name = "certgen"
version = "0.1.0"
edition = "2021"
publish = false

[dependencies]
clap = { version = "3", features = ["derive"] }
rcgen = "0.11"

[dev-dependencies]
pem = "*"
x509-parser = "*"
