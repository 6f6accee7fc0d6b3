[package]
name = "crage"
version = "0.1.0"
edition = "2021"
publish = false

[dependencies]
base64 = "0.21"
bincode = "1.3"
fastapprox = "0.3"
futures = "0.3"
rand = "0.8"
rand_distr = "0.4"
serde = { version = "1", features = ["derive"] }
serde_json = "1"
tokio = { version = "1", features = ["macros", "rt-multi-thread", "sync"] }
tokio-stream = "0.1"
uuid = { version = "1", features = ["v4"] }
warp = "0.3"
xxhash-rust = { version = "0.8", features = ["xxh3"] }
