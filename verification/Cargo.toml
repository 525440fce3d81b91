[package]
name = "vmap"
version = "0.6.3"
edition = "2021"
publish = false

[dependencies]
libc = "0.2"
system_error = "*"
winapi = { version = "0.3", features = ["basetsd", "minwindef", "fileapi", "handleapi", "memoryapi", "sysinfoapi", "winnt"] }
zerocopy = "0.7"
