[package]
name = "ityfuzz"
version = "0.1.0"
edition = "2021"
publish = false

[dependencies]
anyhow = "*"
bytes = "*"
clap = { version = "4", features = ["derive"] }
glob = "*"
hex = "=0.4.3"
libafl_bolts = "=0.16.1"
reqwest = { version = "*", default-features = false, features = ["blocking"] }
retry = "*"
revm-primitives = "*"
serde = { version = "*", features = ["derive"] }
serde_json = "*"
tracing = "*"
