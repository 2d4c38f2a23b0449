[package]
name = "moq_c2pa"
version = "0.1.0"
edition = "2021"
publish = false

[dependencies]
serde_json = "=1.0.154"
sha2 = "=0.10.9"
base64 = "=0.22.1"
url = "=2.5.8"
bytes = "=1.12.1"
serde = { version = "=1.0.229", features = ["derive"] }
clap = { version = "=4.6.7", features = ["derive", "env"] }
thiserror = "=2.0.21"
anyhow = "=1.0.104"
tokio = { version = "=1.54.1", features = ["rt-multi-thread", "macros", "io-std", "time"] }
tracing = "=0.1.44"
toml = "=0.8.23"
moq-lite = "=0.14.0"
hang = "=0.14.0"
moq-mux = "=0.2.1"
moq-native = "=0.19.19"
