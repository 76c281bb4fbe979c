[package]
name = "testdata-gen"
version = "0.1.0"
edition = "2021"
publish = false

[dependencies]
hex = "=0.4.3"
sp-arithmetic = "=3.0.0"
sp-core = "=3.0.0"
sp-keyring = "=3.0.0"
substrate-bip39 = "=0.4.4"
parity-scale-codec = { version = "2.0.0", features = ["derive"] }
clap = { version = "3.2", features = ["derive"] }
tokio = { version = "1", features = ["macros", "rt-multi-thread"] }
futures = "0.3"
log = "0.4"
env_logger = "0.8"
git-version = "0.3"
