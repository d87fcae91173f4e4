[package]
name = "anki_card_creator"
version = "0.1.0"
edition = "2021"
publish = false

[dependencies]
arboard = "=3.3.2"
eframe = { version = "0.23", default-features = false, features = ["default_fonts", "glow"] }
egui = "0.23"
egui_extras = { version = "0.23", features = ["image"] }
futures = "0.3"
image = { version = "0.24", default-features = false, features = ["jpeg", "png"] }
regex = "1"
reqwest = { version = "0.11", features = ["blocking", "json"] }
serde = { version = "1", features = ["derive"] }
tokio = { version = "1", features = ["rt-multi-thread"] }
