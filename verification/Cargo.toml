[package]
name = "lazyworkflows"
version = "0.1.0"
edition = "2021"
publish = false

[dependencies]
crossterm = "0.25"
dirs = "4"
futures = "0.3"
reqwest = "0.11"
serde = { version = "1", features = ["derive"] }
serde_json = "1"
tokio = { version = "1", features = ["macros", "rt-multi-thread"] }
toml = "0.5"
tui = "0.19"
