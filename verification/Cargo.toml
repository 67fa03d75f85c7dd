[package]
name = "wfdiag"
version = "0.1.0"
edition = "2021"
publish = false

[dependencies]
uuid = { version = "*", features = ["v4"] }
chrono = "*"
libc = "*"
tokio = { version = "*", features = ["macros", "rt-multi-thread", "sync", "time"] }
actix-web = "*"
actix-cors = "*"
actix-ws = "*"
futures-util = "*"
serde = { version = "*", features = ["derive"] }
serde_json = "*"
clap = { version = "*", features = ["derive"] }
env_logger = "*"
log = "*"
anyhow = "*"
dirs = "*"
whoami = "*"
sysinfo = "*"
walkdir = "*"
zip = "*"
