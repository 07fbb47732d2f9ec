[package]
name = "nam_plug"
version = "0.1.0"
edition = "2021"
publish = false

[dependencies]
rtrb = "=0.3.6"
log = "=0.4.35"
libc = "=0.2.191"
clack-plugin = "=0.2.0"
clack-extensions = { version = "=0.2.0", features = ["clack-plugin", "latency", "log", "params", "preset-discovery", "state", "tail", "thread-check"] }
