[package]
name = "bigherox-robocup"
version = "0.1.0"
edition = "2021"
publish = false

[dependencies]
glam = { version = "=0.25.0", features = ["serde"] }
rand = "=0.8.8"
serde = { version = "=1.0.229", features = ["derive"] }
toml = "=0.8.23"
mio = { version = "=1.2.4", features = ["os-poll", "os-ext"] }
mio-serial = { version = "=5.0.7", default-features = false }
