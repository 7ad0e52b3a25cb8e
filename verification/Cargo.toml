[package]
name = "sala_devtools"
version = "0.1.0"
edition = "2021"
publish = false

[dependencies]
anyhow = "=1.0.104"
futures = "=0.3.34"
hyper = { version = "=0.14.32", features = ["client"] }
log = "=0.4.35"
prost = "=0.12.6"
serde_json = { version = "=1.0.154", features = ["preserve_order"] }
tokio = { version = "=1.54.1", features = ["io-util", "macros", "net", "process", "rt-multi-thread", "time"] }
tonic = "=0.11.0"
tower = { version = "=0.4.13", features = ["util"] }
