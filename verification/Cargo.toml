[package]
name = "hussh"
version = "0.1.0"
edition = "2021"
publish = false

[dependencies]
base64 = "0.22"
shellexpand = "3"
tokio = { version = "1", features = ["rt-multi-thread", "sync", "time", "fs", "io-util"] }
ssh2 = "0.9"
russh = "*"
russh-sftp = "*"
