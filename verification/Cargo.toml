[package]
name = "opencode"
version = "0.1.0"
edition = "2021"
publish = false

[dependencies]
serde_json = "*"
jsonschema = { version = "*", default-features = false }
tiktoken-rs = "*"
serde = { version = "*", features = ["derive"] }
clap = { version = "*", features = ["derive"] }
anyhow = "*"
reqwest = { version = "*", default-features = false, features = ["json", "stream"] }
tokio = { version = "*", features = ["macros", "rt-multi-thread"] }
futures-util = "*"
bytes = "*"
keyring = "*"
dirs = "*"
toml = "*"
dotenvy = "*"
rpassword = "*"
