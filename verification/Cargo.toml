[package]
name = "lan_chat"
version = "0.1.0"
edition = "2021"
publish = false

[dependencies]
crossterm = "*"
local-ip-address = "*"
tokio = { version = "*", features = ["net", "io-util", "rt-multi-thread", "macros"] }
