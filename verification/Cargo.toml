[package]
name = "clipboard_image"
version = "0.1.0"
edition = "2021"
publish = false

[dependencies]
image = { version = "0.23", default-features = false, features = ["bmp", "png", "jpeg", "gif", "ico", "webp"] }
error-code = "2"
winapi = { version = "0.3", features = ["winuser", "winbase", "wingdi", "errhandlingapi"] }
