[package]
name = "alembic"
version = "0.1.0"
edition = "2021"
publish = false

[dependencies]
ringbuffer = "=0.16.0"
anyhow = "=1.0.104"
clap = { version = "=4.6.7", features = ["derive"] }
serde = { version = "=1.0.229", features = ["derive"] }
serde_json = "=1.0.154"
