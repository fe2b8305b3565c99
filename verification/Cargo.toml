[package]
name = "i3stat"
version = "0.1.0"
edition = "2021"
publish = false

[dependencies]
hex_color = { version = "2", features = ["serde"] }
bytesize = { version = "1", features = ["serde"] }
serde = { version = "1", features = ["derive"] }
serde_derive = "1"
serde_json = "1"
serde_repr = "0.1"
clap = { version = "4", features = ["derive"] }
tokio = { version = "1", features = ["full"] }
tokio-util = "0.7"
indexmap = { version = "2", features = ["serde"] }
figment = { version = "0.10", features = ["toml", "json", "yaml"] }
dirs = "5"
log = "0.4"
humantime-serde = "1"
chrono = "0.4"
sysinfo = "0.30"
futures = "0.3"
async-trait = "0.1"
libc = "0.2"
strum = { version = "0.25", features = ["derive"] }
zbus = "4"
num-traits = "0.2"
paste = "1"
hound = "3"
wordexp = "0.1"
libpulse-binding = "2"
iwlib = "0.1"
