[package]
name = "wayclip_daemon"
version = "0.1.0"
edition = "2021"
publish = false

[dependencies]
ashpd = { version = "0.13", default-features = false, features = ["tokio", "screencast"] }
chrono = { version = "=0.4.45", default-features = false, features = ["clock", "std"] }
dirs = "6"
discord-rich-presence = "1"
gilrs = "0.11"
ksni = "0.3"
log = "0.4"
nanoid = "=0.5.0"
pipewire = "0.9"
rodio = { version = "0.22", default-features = false, features = ["playback", "wav"] }
sd-notify = "0.5"
serde = { version = "1", features = ["derive"] }
serde_json = "=1.0.154"
sysinfo = { version = "0.38", default-features = false, features = ["system"] }
tokio = { version = "1", features = ["full"] }
tokio-util = "0.7"
wayclip-global-hotkey = "0.7"
zbus = { version = "5", default-features = false, features = ["tokio", "blocking-api"] }
