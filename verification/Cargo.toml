[package]
name = "sway_lsp_sync"
version = "0.1.0"
edition = "2021"
publish = false

[dependencies]
dashmap = "*"
toml_edit = "*"
tempfile = "*"
lsp-types = "*"
notify = "*"
notify-debouncer-mini = "*"
parking_lot = "*"
sway-types = "*"
sway-utils = "*"
tokio = { version = "*", features = ["rt", "rt-multi-thread", "sync", "macros", "time"] }
