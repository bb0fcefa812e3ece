[package]
name = "beatrice_lib"
version = "0.1.0"
edition = "2021"
publish = false

[dependencies]
anyhow = "1"
base64 = "0.22"
cpal = "0.15"
ringbuf = "0.4.8"
rubato = "0.16"
serde = { version = "1", features = ["derive"] }
thiserror = "2"
toml = "0.8"
