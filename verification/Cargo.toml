[package]
name = "openworkers_runtime"
version = "0.1.0"
edition = "2021"
publish = false

[dependencies]
deno_core = "*"
log = "0.4"
tokio = { version = "1", features = ["sync", "rt", "macros"] }
serde_json = "1"
env_logger = "*"
