[package]
name = "message_relay"
version = "0.1.0"
edition = "2021"
publish = false

[dependencies]
regex = "1"
tungstenite = "0.19"
url = "2"
