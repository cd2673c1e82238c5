[package]
name = "comicdb"
version = "0.1.0"
edition = "2021"
publish = false

[dependencies]
egui = "0.27"
egui_extras = { version = "0.27", default-features = false }
egui-notify = "0.14"
copypasta = { version = "0.10", default-features = false, features = ["x11"] }
reqwest = { version = "0.12", default-features = false, features = ["blocking", "json", "rustls-tls"] }
serde = { version = "1", features = ["derive"] }
serde_json = "1"
sqlx = { version = "0.8", default-features = false, features = ["sqlite", "runtime-tokio", "derive", "migrate"] }
tokio = { version = "1", features = ["rt-multi-thread"] }
