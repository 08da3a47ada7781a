[package]
name = "nrc"
version = "0.1.0"
edition = "2021"
publish = false

[dependencies]
clap = { version = "=4.6.7", features = ["derive"] }
env_logger = "=0.11.11"
log = "=0.4.35"
inkwell = { version = "=0.11.0", features = ["llvm14-0-prefer-dynamic"] }
thiserror = "=2.0.21"
