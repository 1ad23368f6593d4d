[package]
name = "hexil"
version = "0.1.0"
edition = "2021"
publish = false

[dependencies]
vulkano = "=0.34.2"
winit = { version = "=0.29.15", features = ["rwh_05"] }
smallvec = "=1.16.2"
ahash = "=0.8.12"
thiserror = "=1.0.69"
bytemuck = { version = "=1.25.2", features = ["derive"] }
serde = { version = "=1.0.229", features = ["derive"] }
palette = { version = "=0.7.7", features = ["serializing", "bytemuck"] }
parking_lot = { version = "=0.12.5", features = ["serde"] }
tracing = "=0.1.44"
tracing-subscriber = "=0.3.23"
tracing-appender = "=0.2.5"
