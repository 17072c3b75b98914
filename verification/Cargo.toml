[package]
name = "notespace_editor"
version = "0.1.0"
edition = "2021"
publish = false

[dependencies]
dirs = "5"
iced = { version = "0.13", default-features = false, features = ["tiny-skia", "highlighter", "tokio", "advanced"] }
rust-i18n = "3"
serde = { version = "1", features = ["derive"] }
tokio = { version = "1", features = ["fs"] }
toml = "0.8"
