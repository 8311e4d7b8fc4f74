[package]
name = "frond_tui"
version = "0.1.0"
edition = "2021"
publish = false

[dependencies]
ratatui = { version = "0.29", features = ["unstable-rendered-line-info"] }
tui-textarea = "0.7"
uuid = { version = "1", features = ["v4"] }
chrono = "0.4"
textwrap = "0.16"
cli-clipboard = "0.4"
color-eyre = "0.6"
bat = { version = "0.25", default-features = false, features = ["regex-fancy"] }
ansi-to-tui = "7"
