[package]
name = "aldm"
version = "0.1.0"
edition = "2021"
publish = false

[dependencies]
xdg = "=2.5.2"
permissions = "=0.5.1"
clap = { version = "=4.6.7", features = ["derive"] }
clap-verbosity-flag = "=2.2.3"
serde = { version = "=1.0.229", features = ["derive"] }
serde_yaml = "=0.9.34"
log = { version = "=0.4.34", features = ["serde", "std"] }
tracing = "=0.1.44"
tracing-appender = "=0.2.5"
tracing-subscriber = "=0.3.23"
anstream = "=0.6.21"
owo-colors = { version = "=4.4.0", features = ["supports-colors"] }
