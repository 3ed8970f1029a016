[package]
name = "grip"
version = "0.1.0"
edition = "2021"
publish = false

[dependencies]
anyhow = "*"
clap = { version = "*", features = ["derive"] }
colored = "*"
dialoguer = "*"
dirs = "*"
futures-util = "*"
indicatif = "*"
reqwest = { version = "*", default-features = false, features = ["rustls-tls", "json", "stream"] }
serde = { version = "*", features = ["derive"] }
serde_json = "*"
tempfile = "*"
tokio = { version = "*", features = ["macros", "rt-multi-thread", "fs", "process", "io-util"] }
zip = { version = "*", default-features = false, features = ["deflate"] }
