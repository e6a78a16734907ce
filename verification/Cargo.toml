[package]
name = "saved_places"
version = "0.1.0"
edition = "2021"
publish = false

[dependencies]
csv = "1"
geojson = "*"
reqwest = { version = "*", default-features = false, features = ["blocking"] }
serde = { version = "1", features = ["derive"] }
serde_json = "1"
url = "2"
