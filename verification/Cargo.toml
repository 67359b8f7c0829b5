[package]
name = "renamer"
version = "0.1.0"
edition = "2021"
publish = false

[dependencies]
confy = "0.6"
natural_sort = "*"
regex = "1"
serde = { version = "1", features = ["derive"] }
structopt = "0.3"
tempfile = "3"
walkdir = "2"
