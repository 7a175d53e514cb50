[package]
name = "llm_term"
version = "0.1.0"
edition = "2021"
publish = false

[dependencies]
openai_api_rust = "*"
serde = { version = "1", features = ["derive"] }
serde_json = "1"
clap = "4"
colored = "2"
