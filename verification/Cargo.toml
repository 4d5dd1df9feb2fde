[package]
name = "pipe_gpt"
version = "0.1.0"
edition = "2021"
publish = false

[dependencies]
serde_yaml = "*"
atty = "*"
clap = { version = "*", features = ["cargo"] }
dirs = "*"
openai_api_rust = "*"
termimad = "*"
