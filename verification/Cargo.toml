[package]
name = "load-balancer"
version = "0.1.0"
edition = "2021"
publish = false

[dependencies]
anyhow = "1"
aya = "*"
aya-log = "*"
clap = { version = "4", features = ["derive"] }
env_logger = "*"
libc = "0.2"
log = "0.4"
tokio = { version = "1", features = ["macros", "rt", "rt-multi-thread", "net", "signal"] }
