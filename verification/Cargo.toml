[package]
name = "chat_splitter"
version = "0.1.0"
edition = "2021"
publish = false

[dependencies]
anyhow = "1"
async-openai = "0.17"
tiktoken-rs = "0.5"
