[package]
name = "cloud_cli"
version = "0.1.0"
edition = "2021"
publish = false

[dependencies]
anyhow = "1"
clap = "4"
prost = "*"
tonic = "*"
tokio = { version = "1", features = ["rt-multi-thread"] }
http = "1"
sha3 = "0.10"
k256 = "0.13"
efficient-sm2 = "*"
libsm = "*"
rand = "0.8"
