[package]
name = "aporture_client"
version = "0.1.0"
edition = "2021"
publish = false

[dependencies]
anyhow = "1"
clap = { version = "4", features = ["derive"] }
colored = "*"
env_logger = "*"
indicatif = "*"
log = "0.4"
rpassword = "7"
tabled = "*"
tokio = { version = "1", features = ["macros", "rt-multi-thread", "io-util", "io-std", "sync"] }
