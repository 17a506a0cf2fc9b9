[package]
name = "native_threads"
version = "0.1.0"
edition = "2021"
publish = false

[dependencies]
origin = { version = "=0.26.2", default-features = false, features = ["std", "libc", "thread"] }
rustix = { version = "=1.1.5", features = ["fs", "process", "stdio", "thread"] }
rustix-futex-sync = { version = "=0.4.0", features = ["atomic_usize"] }
