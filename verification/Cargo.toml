[package]
name = "wardrobe"
version = "0.1.0"
edition = "2021"
publish = false

[dependencies]
log = "0.4"
serde = { version = "1", features = ["derive"] }
serde_json = "1"
simplelog = "0.12"
retour = "0.3"
winapi = { version = "0.3", features = ["memoryapi", "processthreadsapi", "debugapi"] }
windows-sys = { version = "0.52", features = ["Win32_Foundation", "Win32_System_SystemServices", "Win32_System_LibraryLoader"] }
