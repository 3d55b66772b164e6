[package]
name = "trustee"
version = "0.1.0"
edition = "2021"
publish = false

[dependencies]
anyhow = "1"
clap = { version = "4", features = ["derive", "env"] }
dirs = "*"
env_logger = "*"
log = "0.4"
nix = { version = "*", features = ["user"] }
openssl = "0.10"
tokio = { version = "1", features = ["macros", "rt-multi-thread"] }
