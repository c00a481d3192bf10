[package]
name = "webview2"
version = "0.1.0"
edition = "2021"
publish = false

[dependencies]
com = "0.2"
memory-module-sys = "*"
once_cell = "1"
webview2-sys = "*"
widestring = "0.4"
winapi = { version = "0.3", features = ["combaseapi", "libloaderapi", "minwindef", "ntdef", "windef", "winerror"] }
