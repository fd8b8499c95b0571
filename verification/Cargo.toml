[package]
name = "novadraw"
version = "0.1.0"
edition = "2021"
publish = false

[dependencies]
glam = "*"
serde = { version = "1", features = ["derive"] }
slotmap = "1"
