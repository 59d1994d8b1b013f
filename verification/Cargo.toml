[package]
name = "rinit"
version = "0.1.0"
edition = "2021"
publish = false

[dependencies]
nix = { version = "=0.31.3", features = ["user", "process", "signal", "reboot", "fs"] }
libc = "=0.2.191"
tokio = { version = "=1.54.1", features = ["full"] }
lexopt = "=0.3.2"
figment = { version = "=0.10.19", features = ["toml", "env"] }
toml = "=0.8.23"
serde = { version = "=1.0.229", features = ["derive"] }
serde_json = "=1.0.154"
clap = { version = "=4.6.7", features = ["derive"] }
tracing = "=0.1.44"
tracing-subscriber = "=0.3.23"
flexi_logger = { version = "=0.31.10", features = ["async", "compress"] }
eyre = "=0.6.14"
remoc = "*"
