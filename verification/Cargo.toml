[package]
name = "audiocaptor"
version = "0.1.0"
edition = "2021"
publish = false

[dependencies]
anyhow = "1"
chrono = "0.4"
crossbeam-channel = "0.5"
hound = "3"
log = "0.4"
ringbuf = "0.4"
rubato = "0.16"
serde = { version = "1", features = ["derive"] }
serde_json = "1"
