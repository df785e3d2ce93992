[package]
name = "pomodoro_mindfullness"
version = "0.1.0"
edition = "2021"
publish = false

[dependencies]
gtk4 = { version = "*", features = ["v4_10"] }
gio = "*"
gtk4-layer-shell = "*"
