[package]
name = "verbosity_flag"
version = "0.1.0"
edition = "2021"
publish = false

[dependencies]
clap = { version = "4", features = ["derive"] }
log = "0.4"
tracing-subscriber = "0.3"
