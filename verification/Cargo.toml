[package]
name = "dicom2rdf"
version = "0.1.0"
edition = "2021"
publish = false

[dependencies]
clap = { version = "4", features = ["derive"] }
dicom-core = "*"
dicom-object = "*"
env_logger = "*"
flate2 = "1"
itertools = "*"
log = "0.4"
rayon = "1"
serde = { version = "1", features = ["derive"] }
serde_yaml = "*"
tar = "*"
tempfile = "3"
toml = "*"
urlencoding = "2"
walkdir = "2"
zstd = "*"
