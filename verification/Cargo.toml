[package]
name = "gmsv_async_stdout"
version = "0.1.0"
edition = "2021"
publish = false

[dependencies]
chrono = "=0.4.45"
detour = { version = "=0.8.1", default-features = false }
filedescriptor = "=0.8.3"
lazy_static = "=1.5.1"
libc = "=0.2.191"
libloading = "=0.7.4"
sigscan = "=0.1.1"
