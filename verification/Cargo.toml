[package]
name = "write_gate"
version = "0.1.0"
edition = "2021"
publish = false

[dependencies]
async-trait = "0.1"
log = "0.4"
prost = { version = "0.14", default-features = false, features = ["std"] }
time = "0.3"
time-tz = "2"
tokio = { version = "1", features = ["io-util", "macros", "net", "rt", "sync", "time"] }
