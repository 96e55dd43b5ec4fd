[package]
name = "vtcode-core"
version = "0.1.0"
edition = "2021"
publish = false

[dependencies]
serde_json = "1"
serde = { version = "1", features = ["derive"] }
url = "2"
percent-encoding = "2"
unicode-segmentation = "1"
unicode-width = "0.2"
anyhow = "1"
tokio = { version = "1", features = ["rt", "macros", "sync", "time", "io-std", "io-util"] }
tokio-util = { version = "0.7", features = ["compat"] }
futures = "0.3"
async-trait = "0.1"
reqwest = { version = "0.12", default-features = false, features = ["json", "stream"] }
crossterm = "0.28"
ratatui = "0.29"
tui-scrollview = "0.5"
agent-client-protocol = "0.4"
anstyle = "1"
catppuccin = "2"
once_cell = "1"
parking_lot = "0.12"
termion = "4"
