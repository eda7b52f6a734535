[package]
name = "pulsar_core"
version = "0.1.0"
edition = "2021"
publish = false

[dependencies]
futures = "0.3"
chrono = "0.4"
rand = "0.8"
url = "2"
tokio = { version = "1", features = ["net", "rt", "time", "io-util"] }
tokio-util = { version = "0.7", features = ["codec"] }
tokio-native-tls = "0.3"
native-tls = "0.2"
async-std = { version = "1", features = ["unstable"] }
async-native-tls = "0.4"
futures_codec = "0.4"
