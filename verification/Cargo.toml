[package]
name = "serein"
version = "0.1.0"
edition = "2021"
publish = false

[dependencies]
serde = { version = "1", features = ["derive"] }
serde_json = "1"
url = "2"
getrandom = "*"
zeroize = "*"
rusqlite = { version = "*", features = ["bundled"] }
egui = "*"
winit = "*"
gtk4 = "*"
webkit6 = "*"
