[package]
name = "gdnative-project-utils"
version = "0.1.0"
edition = "2021"
publish = false

[dependencies]
pathdiff = "0.2"
path-slash = "0.1"
syn = { version = "1", features = ["full", "visit"] }
proc-macro2 = "1"
ignore = "0.4"
