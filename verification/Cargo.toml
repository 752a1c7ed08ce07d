[package]
name = "bevy_mod_kira"
version = "0.1.0"
edition = "2021"
publish = false

[dependencies]
anyhow = "1"
bevy = { version = "0.16", default-features = false, features = ["bevy_asset", "bevy_log"] }
kira = { version = "0.10", default-features = false, features = ["symphonia", "ogg", "flac", "mp3", "wav"] }
ringbuf = "0.4"
thiserror = "2"
