[package]
name = "file_explorer"
version = "0.1.0"
edition = "2021"
publish = false

[dependencies]
axum = "=0.8.9"
either = "=1.19.0"
hypertext = "=0.5.2"
tokio = { version = "=1.54.1", features = ["macros", "net", "rt-multi-thread"] }
