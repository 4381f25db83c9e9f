[package]
name = "casper_node"
version = "0.1.0"
edition = "2021"
publish = false

[dependencies]
anyhow = "1"
base16 = "0.2"
blake2 = "0.10"
clap = "2"
num-rational = "0.4"
prometheus = { version = "0.13", default-features = false }
rand = "0.8"
serde = { version = "1", features = ["derive"] }
structopt = "0.3"
thiserror = "1"
tokio = { version = "1", features = ["macros", "rt-multi-thread"] }
tracing = "0.1"
