[package]
name = "librobot"
version = "0.1.0"
edition = "2021"
publish = false

[dependencies]
arrayvec = "*"
embedded-hal = "0.2"
qei = "*"
heapless = "*"
serde = { version = "*", default-features = false, features = ["derive"] }
serde-json-core = "*"
