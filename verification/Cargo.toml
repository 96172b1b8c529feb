[package]
name = "canvas_tui"
version = "0.1.0"
edition = "2021"
publish = false

[dependencies]
crossterm = "0.25"
reqwest = "0.11"
serde_json = "1"
tokio = { version = "1", features = ["macros", "rt-multi-thread"] }
tui = "0.19"
