[package]
name = "tiktoken_node"
version = "0.1.0"
edition = "2021"
publish = false

[dependencies]
tiktoken = "*"
async-channel = "*"
once_cell = "*"
tokio = { version = "*", features = ["rt-multi-thread", "sync"] }
