[package]
name = "etch"
version = "0.1.0"
edition = "2021"
publish = false

[dependencies]
anyhow = "1"
chrono = "0.4"
dirs = "*"
glib = "*"
gtk4 = "*"
once_cell = "1"
rayon = "1"
reqwest = { version = "*", features = ["blocking"] }
rusqlite = { version = "*", features = ["bundled"] }
serde = { version = "1", features = ["derive"] }
serde_json = "1"
sha2 = "0.10"
tokio = { version = "1", features = ["fs", "io-util", "rt"] }
