[package]
name = "gemini_multimodal_mcp"
version = "0.1.0"
edition = "2021"
publish = false

[dependencies]
base64 = "*"
url = "*"
tempfile = "*"
thiserror = "*"
tokio = { version = "*", features = ["rt-multi-thread", "process", "time", "fs", "macros", "io-std"] }
rmcp = { version = "*", features = ["server", "macros", "transport-io"] }
ffmpeg-next = "*"
