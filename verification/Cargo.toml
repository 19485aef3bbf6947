[package]
name = "handy"
version = "0.9.4"
edition = "2021"
publish = false

[dependencies]
anyhow = "1"
chrono = { version = "0.4", default-features = false, features = ["now"] }
clap = { version = "4", default-features = false, features = ["std", "derive", "help", "usage", "error-context", "suggestions"] }
hound = "3.5"
interprocess = "2"
libc = "0.2"
log = "0.4"
serde = { version = "1", features = ["derive"] }
serde_json = "1"
signal-hook = "0.3"
strsim = "0.11"
tauri = { version = "2", default-features = false }
tauri-plugin-global-shortcut = "2"
