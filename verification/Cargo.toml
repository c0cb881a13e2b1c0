[package]
name = "omp_launcher"
version = "0.1.0"
edition = "2021"
publish = false

[dependencies]
chardet = "=0.2.4"
chardetng = "=0.1.17"
charset-normalizer-rs = "=1.0.6"
encoding_rs = "=0.8.42"
serde = { version = "=1.0.229", features = ["derive"] }
serde_json = "=1.0.151"
gumdrop = "=0.8.1"
dirs-next = "=2.0.0"
tokio = { version = "=1.53.2", features = ["net", "time", "rt"] }
sysinfo = "=0.39.6"
discord-rich-presence = "=1.1.0"
