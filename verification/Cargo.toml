[package]
name = "fend_core"
version = "0.1.0"
edition = "2021"
publish = false

[dependencies]
home = "0.5"
winapi = { version = "0.3", features = ["errhandlingapi", "fileapi", "winnt"] }
