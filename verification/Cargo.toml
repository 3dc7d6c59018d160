[package]
name = "aviutl2"
version = "0.1.0"
edition = "2021"
publish = false

[dependencies]
num-rational = "0.4"
ruzstd = "*"
thiserror = "2"
anyhow = "1"
log = "0.4"
tracing = "0.1"
tracing-subscriber = "0.3"
parking_lot = "0.12"
dashmap = "6"
half = "2"
serde = { version = "1", features = ["derive"] }
rmp-serde = "1"
raw-window-handle = "0.6"
process_path = "*"
native-dialog = "*"
