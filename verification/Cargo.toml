[package]
name = "dsf-iot"
version = "0.1.0"
edition = "2021"
publish = false

[dependencies]
dsf-core = "*"
dsf-rpc = "*"
dsf-client = "*"
encdec = "*"
byteorder = "1"
heapless = "0.7"
sled = "0.34"
clap = { version = "4", features = ["derive"] }
tokio = { version = "1", features = ["macros", "rt-multi-thread"] }
futures = "0.3"
anyhow = "1"
