[package]
name = "limonium"
version = "0.1.0"
edition = "2021"
publish = false

[dependencies]
async-trait = "=0.1.92"
chrono = "=0.4.45"
clap = "=4.6.7"
colored = "=2.2.0"
futures-util = "=0.3.34"
indicatif = "=0.17.11"
once_cell = "=1.21.4"
openssh = "=0.11.6"
openssh-sftp-client = "=0.15.10"
regex = "=1.13.1"
reqwest = { version = "=0.12.28", default-features = false, features = ["rustls-tls", "stream"] }
self_update = "*"
semver = "=1.0.28"
serde = { version = "=1.0.229", features = ["derive"] }
serde_json = "=1.0.154"
tokio = { version = "=1.54.1", features = ["macros", "rt-multi-thread", "io-util", "fs"] }
uuid = { version = "=1.29.0", features = ["v4"] }
