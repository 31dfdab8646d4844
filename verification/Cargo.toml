[package]
name = "rencfs_winfsp"
version = "0.1.0"
edition = "2021"
publish = false

[dependencies]
async-trait = "*"
shush-rs = "*"
tokio = { version = "1", features = ["rt", "rt-multi-thread", "sync"] }
winfsp = "*"
widestring = "*"
