[package]
name = "chromeless_shell"
version = "0.1.0"
edition = "2021"
publish = false

[dependencies]
once_cell = "*"
winapi = { version = "0.3", features = ["winuser", "libloaderapi", "wingdi", "winbase", "windef", "minwindef", "errhandlingapi"] }
webview2 = "*"
