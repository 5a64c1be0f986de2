[package]
name = "mls_chat"
version = "0.1.0"
edition = "2021"
publish = false

[dependencies]
openmls = "=0.5.0"
openmls_rust_crypto = "0.2"
openmls_basic_credential = "0.2"
openmls_traits = "0.2"
chrono = "0.4"
tokio = { version = "1", features = ["rt", "net", "io-util", "sync", "signal", "macros", "time"] }
tokio-util = "0.7"
clap = { version = "4", features = ["derive"] }
crossterm = "0.27"
ratatui = "0.26"
tui-input = "0.8"
