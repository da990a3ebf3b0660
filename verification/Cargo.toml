[package]
name = "inkscape_manager"
version = "0.1.0"
edition = "2021"
publish = false

[dependencies]
xcb = "=1.7.1"
xcb-wm = { version = "=0.4.0", features = ["ewmh", "icccm"] }
serde = { version = "=1.0.229", features = ["derive"] }
serde_yaml = "=0.9.34"
