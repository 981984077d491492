[package]
name = "taskerizer"
version = "0.1.0"
edition = "2021"
publish = false

[dependencies]
actix-rt = "2"
actix-web = "4"
byteorder = "1"
chrono = "0.4"
directories = "5"
failure = "0.1"
rand = "0.8"
rusqlite = { version = "0.31", features = ["bundled"] }
serde = { version = "1", features = ["derive"] }
serde_json = "1"
structopt = "0.3"
toml = "0.8"
uuid = { version = "1", features = ["v4", "serde"] }
