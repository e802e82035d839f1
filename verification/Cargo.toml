[package]
name = "sourceprep"
version = "0.1.0"
edition = "2021"
publish = false

[dependencies]
flate2 = "1"
tar = "0.4"
walkdir = "2"
fs2 = "0.4"
remove_dir_all = "0.8"
log = "0.4"
tempfile = "3"
