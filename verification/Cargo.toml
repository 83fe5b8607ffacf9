[package]
name = "om_rs"
version = "0.1.0"
edition = "2021"
publish = false

[dependencies]
bytes = "=1.12.1"
log = "=0.4.35"
thiserror = "=1.0.69"
tokio = { version = "=1.54.1", features = ["macros", "process", "rt-multi-thread", "sync", "time"] }
tokio-util = "=0.7.20"
uuid = { version = "=1.29.0", features = ["v4"] }
whoami = "=1.6.1"
zeromq = "0.4"
