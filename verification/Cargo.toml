[package]
name = "polecatteamsbot"
version = "0.1.0"
edition = "2021"
publish = false

[dependencies]
serde_json = "=1.0.151"
base64 = "=0.23.1"
url = "=2.5.8"
chrono = "=0.4.45"
reqwest = { version = "=0.13.5", default-features = false, features = ["form"] }
tokio = { version = "=1.53.2", features = ["rt", "rt-multi-thread", "macros", "time", "sync"] }
tokio-util = "=0.7.19"
log = "=0.4.34"
serde = { version = "=1.0.229", features = ["derive"] }
futures = "=0.3.34"
