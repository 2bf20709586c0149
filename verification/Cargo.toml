[package]
name = "mindland"
version = "0.1.0"
edition = "2021"
publish = false

[dependencies]
anyhow = "*"
bytemuck = { version = "*", features = ["derive"] }
crossbeam = "*"
glam = "*"
lock_api = "*"
lru = "*"
parking_lot = "*"
serde = { version = "*", features = ["derive"] }
slotmap = "*"
thiserror = "*"
tracing = "*"
tracing-subscriber = "*"
