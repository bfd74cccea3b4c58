[package]
name = "wspp"
version = "0.1.0"
edition = "2021"
publish = false

[dependencies]
url = "2"
tokio = { version = "1", features = ["rt", "net", "time"] }
yawc = "*"
futures = "0.3"
