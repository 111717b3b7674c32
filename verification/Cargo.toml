[package]
name = "reqwestur"
version = "0.0.1"
edition = "2021"
publish = false

[dependencies]
chrono = { version = "=0.4.45", default-features = false, features = ["now", "std"] }
eframe = { version = "=0.32.3", default-features = false, features = ["glow", "default_fonts", "persistence", "x11"] }
egui_extras = { version = "=0.32.3", default-features = false, features = ["image"] }
image = { version = "=0.25.10", default-features = false, features = ["png"] }
reqwest = { version = "=0.12.28", default-features = false, features = ["blocking", "native-tls", "multipart", "cookies"] }
rfd = { version = "0.15", default-features = false, features = ["xdg-portal", "tokio"] }
serde = { version = "=1.0.229", features = ["derive"] }
serde_json = "=1.0.154"
