[package]
name = "judge_core"
version = "0.1.0"
edition = "2021"
publish = false

[dependencies]
difference = "*"
random-string = "*"
errno = "*"
libc = "*"
fs_extra = "*"
serde = { version = "*", features = ["derive"] }
