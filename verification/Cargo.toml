[package]
name = "mmgui"
version = "0.1.0"
edition = "2021"
publish = false

[dependencies]
cursive = { version = "0.21", default-features = false, features = ["crossterm-backend"] }
cursive_table_view = "0.15"
cursive-aligned-view = "0.7"
dirs = "=2.0.2"
serde = { version = "=1.0.229", features = ["derive"] }
serde_json = "=1.0.154"
