[package]
name = "ws_echo"
version = "0.1.0"
edition = "2021"
publish = false

[dependencies]
native-tls = "*"
tungstenite = "*"
thiserror = "*"
