[package]
name = "judge_slave"
version = "0.1.0"
edition = "2021"
publish = false

[dependencies]
async-std = "1"
bincode = "1.3"
k256 = { version = "0.11", features = ["ecdh"] }
log = "0.4"
rand = "0.8"
tempfile = "3"
uuid = "1"
