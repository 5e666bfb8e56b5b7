[package]
name = "manycore_visualiser"
version = "0.1.0"
edition = "2021"
publish = false

[dependencies]
chrono = { version = "0.4", default-features = false, features = ["now"] }
quick-xml = { version = "0.31", features = ["serialize"] }
resvg = { version = "0.40", default-features = false, features = ["text"] }
serde = { version = "1", features = ["derive"] }
serde_json = "1"
uuid = { version = "1", features = ["v4"] }
which = "6"
