[package]
name = "shiplift"
version = "0.1.0"
edition = "2021"
publish = false

[dependencies]
base64 = "0.13"
futures-util = "0.3"
hyper = { version = "0.14", features = ["client", "http1", "stream", "tcp"] }
hyper-openssl = "0.9"
hyperlocal = "0.8"
mime = "0.3"
openssl = "0.10"
pin-project = "1"
serde = { version = "1", features = ["derive"] }
serde_json = "1"
tokio = { version = "1", features = ["io-util", "net", "rt", "time"] }
url = "2"
