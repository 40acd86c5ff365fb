[package]
name = "lonely_engine"
version = "0.1.0"
edition = "2021"
publish = false

[dependencies]
winapi = { version = "=0.3.9", features = ["consoleapi", "wincon", "winuser", "processenv", "winbase", "playsoundapi", "mmsystem"] }
windows = "=0.48.0"
