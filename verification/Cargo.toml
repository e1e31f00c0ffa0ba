[package]
name = "rev"
version = "0.1.0"
edition = "2021"
publish = false

[dependencies]
clap = { version = "=4.6.7", features = ["derive"] }
clipboard = "=0.5.0"
dirs = "=5.0.1"
glob = "=0.3.4"
path-absolutize = "=3.1.1"
pathdiff = "=0.2.3"
serde = { version = "=1.0.229", features = ["derive"] }
serde_json = "=1.0.154"
serde-xml-rs = "=0.6.0"
tokio = { version = "=1.54.1", features = ["process", "rt", "time"] }
uuid = { version = "=1.29.0", features = ["v4"] }
