[package]
name = "dungeon_rs"
version = "0.1.0"
edition = "2021"
publish = false

[dependencies]
blake3 = "=1.8.7"
crossbeam-channel = "=0.5.17"
unic-langid = "=0.9.6"
tracing = "=0.1.44"
tracing-subscriber = "=0.3.23"
serde = { version = "=1.0.229", features = ["derive"] }
toml = "=1.1.8"
semver = { version = "=1.0.28", features = ["serde"] }
anyhow = "=1.0.104"
clap = { version = "=4.6.7", features = ["derive"] }
clap-verbosity-flag = { version = "3", features = ["tracing"] }
walkdir = "=2.5.0"
rhai = "=1.27.0"
tantivy = { version = "=0.24.2", default-features = false, features = ["mmap"] }
indicatif = "=0.18.6"
sysinfo = "=0.40.1"
