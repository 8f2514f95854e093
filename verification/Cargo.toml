[package]
name = "monsterex"
version = "0.1.0"
edition = "2021"
publish = false

[dependencies]
ansi-to-tui = "7"
anyhow = "1"
ratatui = "0.29"
serde = { version = "1", features = ["derive"] }
serde_json = "1"
textwrap = "0.16"
tui-input = "0.11"
