[package]
name = "nearsend"
version = "0.1.0"
edition = "2021"
publish = false

[dependencies]
chrono = "0.4"
uuid = { version = "1", features = ["v4"] }
urlencoding = "2"
qrcode = { version = "0.14", default-features = false }
if-addrs = "*"
