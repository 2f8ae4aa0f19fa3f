[package]
name = "ract"
version = "0.1.0"
edition = "2021"
publish = false

[dependencies]
ratatui = "0.29"
tui-textarea = "0.7"
inquire = "0.7"
clap = { version = "4", features = ["derive"] }
colored = "2"
toml_edit = "0.22"
which = "7"
gen_utils = "*"
