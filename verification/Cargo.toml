[package]
name = "filter"
version = "0.1.0"
edition = "2021"
publish = false

[dependencies]
anyhow = "1.0"
bincode = "1.3"
kinode_process_lib = "0.8"
rand = "0.8"
serde = { version = "1.0", features = ["derive"] }
serde_json = "1.0"
