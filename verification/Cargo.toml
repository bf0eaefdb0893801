[package]
name = "dual_webview"
version = "0.1.0"
edition = "2021"
publish = false

[dependencies]
once_cell = "1"
tinyfiledialogs = "3"
web-view = "*"
webview2 = "*"
winapi = { version = "0.3", features = ["winuser", "libloaderapi", "wingdi", "winbase", "windef", "minwindef", "errhandlingapi"] }
