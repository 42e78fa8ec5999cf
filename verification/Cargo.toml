[package]
name = "tray_monitor"
version = "0.1.0"
edition = "2021"
publish = false

[dependencies]
ab_glyph = "*"
auto-launch = "*"
crossbeam-channel = "*"
eframe = { version = "*", default-features = false, features = ["glow", "x11", "default_fonts"] }
fluent = "*"
image = { version = "*", default-features = false }
serde = { version = "*", features = ["derive"] }
thiserror = "*"
toml = "*"
tray-icon = "*"
unic-langid = "*"
