[package]
name = "color_norm"
version = "0.1.0"
edition = "2021"
publish = false

[dependencies]
bytemuck = "*"
cssparser = "=0.38.0"
cssparser-color = "=0.6.0"
palette = "=0.7.7"
axum = "=0.8.9"
tokio = { version = "=1.53.2", features = ["rt-multi-thread", "net", "macros"] }
tracing-subscriber = "=0.3.23"
