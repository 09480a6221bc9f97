[package]
name = "web_mcp"
version = "0.1.0"
edition = "2021"
publish = false

[dependencies]
url = "2"
base64 = "0.22"
scraper = "*"
serde = { version = "1", features = ["derive"] }
serde_json = "1"
thiserror = "2"
tokio = { version = "1", features = ["full"] }
chromiumoxide = "*"
futures-util = "0.3"
clap = { version = "4", features = ["derive", "env"] }
reqwest = { version = "0.12", default-features = false }
mcp-core = "*"
