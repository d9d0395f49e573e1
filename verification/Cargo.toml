[package]
name = "tty_probe"
version = "0.1.0"
edition = "2021"
publish = false

[dependencies]
libc = "0.2"
winapi = { version = "0.3", features = ["consoleapi", "fileapi", "minwinbase", "minwindef", "ntdef", "processenv", "winbase", "wincon"] }
