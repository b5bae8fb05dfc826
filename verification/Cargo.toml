[package]
name = "simple_sys_info"
version = "0.1.0"
edition = "2021"
publish = false

[dependencies]
tokio = { version = "1", features = ["full"] }
ratatui = "0.29"
