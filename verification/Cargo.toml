[package]
name = "media_controller"
version = "0.1.0"
edition = "2021"
publish = false

[dependencies]
lrc = "=0.2.0"
serde = { version = "=1.0.229", features = ["derive"] }
serde_json = "=1.0.154"
musicbrainz_rs = { version = "=0.14.0", features = ["sync", "rustls"] }
rusqlite = { version = "=0.41.1", features = ["bundled"] }
ureq = "=3.5.1"
mio = "=1.2.4"
udev = { version = "=0.9.3", features = ["mio"] }
gpio-cdev = "=0.6.0"
winit = "=0.30.13"
glutin = "=0.32.3"
glutin-winit = "=0.5.0"
femtovg = "=0.28.0"
raw-window-handle = "=0.6.2"
enigo = "=0.6.1"
