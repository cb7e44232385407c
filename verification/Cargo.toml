[package]
name = "voice_prompt"
version = "0.1.0"
edition = "2021"
publish = false

[dependencies]
async-channel = "*"
chrono = "0.4"
cpal = "*"
dirs = "*"
env_logger = "*"
evdev = "*"
futures-util = "*"
gtk4 = { version = "*", features = ["v4_12"] }
gtk4-layer-shell = "*"
hound = "*"
libadwaita = { version = "*", features = ["v1_5"] }
log = "*"
rdev = "*"
reqwest = { version = "*", features = ["json", "stream"] }
serde = { version = "1", features = ["derive"] }
serde_json = "1"
tokio = { version = "1", features = ["rt-multi-thread", "fs", "io-util"] }
whisper-rs = "*"
