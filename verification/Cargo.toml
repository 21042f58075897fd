[package]
name = "commodoro"
version = "0.1.0"
edition = "2021"
publish = false

[dependencies]
alsa = "0.9"
cairo-rs = "0.18"
cairo-sys-rs = "0.18"
evdev = "0.12"
gdk = "0.18"
gdk-pixbuf = "0.18"
gio = "0.18"
glib = "0.18"
glib-sys = "0.18"
gobject-sys = "0.18"
gtk = "0.18"
gtk-sys = "0.18"
libc = "0.2"
once_cell = "1"
serde = { version = "1", features = ["derive"] }
serde_json = "1"
tokio = { version = "1", features = ["rt-multi-thread", "time"] }
zbus = "3"
