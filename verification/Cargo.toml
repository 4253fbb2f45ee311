[package]
name = "servoparser"
version = "0.1.0"
edition = "2021"
publish = false

[dependencies]
encoding_rs = "*"
base64 = "*"
mime = "*"
html5ever = "*"
tendril = "*"
content-security-policy = "*"
