[package]
name = "picleo"
version = "0.1.0"
edition = "2021"
publish = false

[dependencies]
nucleo = "*"
shell-escape = "*"
comma = "*"
eunicode = "*"
crossterm = "*"
ratatui = "*"
ansi-to-tui = "*"
anyhow = "*"
clap = { version = "*", features = ["derive"] }
figment = { version = "*", features = ["toml", "yaml", "json", "env"] }
directories = "*"
serde = { version = "*", features = ["derive"] }
