[package]
name = "particl_indexer"
version = "0.1.0"
edition = "2021"
publish = false

[dependencies]
serde = { version = "1", features = ["derive"] }
serde_json = "1"
tokio = { version = "1", features = ["macros", "rt-multi-thread"] }
ureq = { version = "2", features = ["json"] }
clap = { version = "4", features = ["cargo"] }
fern = { version = "0.6", features = ["colored"] }
humantime = "2"
log = "0.4"
bitcoincore-zmq = { version = "1", features = ["async"] }
futures-util = "0.3"
