[package]
name = "kute_clip_core"
version = "0.1.0"
edition = "2021"
publish = false

[dependencies]
base64 = "*"
image = { version = "*", default-features = false, features = ["png"] }
global-hotkey = { version = "*", features = ["serde"] }
keyboard-types = { version = "*", features = ["serde"] }
rusqlite = { version = "*", features = ["bundled"] }
serde = { version = "1", features = ["derive"] }
serde_json = "1"
serde_repr = "*"
thiserror = "*"
tokio = { version = "1", features = ["time", "rt"] }
tracing = "*"
tracing-subscriber = "*"
misty-vm = "*"
arboard = "*"
clipboard-master = "*"
directories = "*"
enigo = "*"

[dev-dependencies]
misty-vm-test = "*"
tempdir = "*"
