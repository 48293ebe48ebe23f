[package]
name = "omango_futex"
version = "0.1.0"
edition = "2021"
publish = false

[dependencies]
libc = "=0.2.191"
omango-util = "=0.1.6"
windows-sys = { version = "=0.61.2", features = ["Win32_Foundation", "Win32_System_Threading"] }

[dev-dependencies]
rustix = { version = "=1.1.5", features = ["thread", "time"] }
