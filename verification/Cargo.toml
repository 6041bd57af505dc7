[package]
name = "rpc"
version = "0.1.0"
edition = "2021"
publish = false

[dependencies]
serde = { version = "1", features = ["derive"] }
serde_json = "1"
mio = "0.6"
syn = { version = "1", features = ["full"] }
quote = "1"
proc-macro2 = "1"
