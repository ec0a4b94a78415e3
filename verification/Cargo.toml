[package]
name = "sunder"
version = "0.1.0"
edition = "2021"
publish = false

[dependencies]
piet = "=0.6.2"
kurbo = "=0.9.5"
ui-theme = "=0.2.0"
async-winit = { version = "=0.2.1", default-features = false, features = ["x11"] }
theo = { version = "=0.1.0", default-features = false, features = ["x11"] }
softbuffer = { version = "=0.3.4", default-features = false, features = ["x11", "x11-dlopen"] }
futures-lite = "=1.13.0"
raw-window-handle = "=0.5.2"
cfg-if = "=1.0.5"
web-sys = { version = "=0.3.106", features = ["Window", "Document", "Element"] }
