[package]
name = "schultz"
version = "0.1.0"
edition = "2021"
publish = false

[dependencies]
casper-types = "=4.0.2"
base16 = "=0.2.1"
openssl = "=0.10.82"
clap = { version = "=4.6.7", features = ["derive", "env"] }
miette = "=7.6.0"
directories = "=5.0.1"
tokio = { version = "=1.54.1", features = ["rt-multi-thread", "macros", "sync", "net", "time", "io-util"] }
tokio-util = { version = "0.7", features = ["codec"] }
futures = "0.3"
bytes = "1"
serde = { version = "1", features = ["derive"] }
rmp-serde = "1"
bincode = "1"
toml = "0.8"
rand = "0.8"
tracing = "=0.1.44"
tracing-subscriber = "=0.3.23"
