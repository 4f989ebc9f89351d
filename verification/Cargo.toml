[package]
name = "lk"
version = "0.1.0"
edition = "2021"
publish = false

[dependencies]
anyhow = "*"
colored = "*"
content_inspector = "*"
dirs = "*"
fuzzy-matcher = "*"
log = "*"
nanoid = "*"
pad = "*"
pastel_colours = "*"
serde = { version = "*", features = ["derive"] }
spinners = "*"
structopt = "*"
tempfile = "*"
termion = "*"
toml = "*"
walkdir = "*"
