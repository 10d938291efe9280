[package]
name = "window_core"
version = "0.1.0"
edition = "2021"
publish = false

[dependencies]
winapi = { version = "0.3", features = ["basetsd", "errhandlingapi", "minwindef", "windef", "winnt", "winuser"] }
