[package]
name = "ushidashi"
version = "0.1.0"
edition = "2021"
publish = false

[dependencies]
anyhow = "*"
base64 = "*"
chrono = "*"
colored = "*"
cpal = "*"
directories = "*"
evdev = "*"
miniquad = "*"
reqwest = { version = "*", default-features = false, features = ["json", "multipart"] }
serde = { version = "*", features = ["derive"] }
serde_json = "*"
tokio = { version = "*", features = ["rt-multi-thread", "macros"] }
toml = "*"
xdg = "*"

[dev-dependencies]
hound = "*"
