[package]
name = "npio"
version = "0.1.0"
edition = "2021"
publish = false

[dependencies]
md5 = "0.7"
percent-encoding = "2"
chrono = { version = "0.4", default-features = false, features = ["clock", "std"] }
mime_guess = "2"
directories = "5"
tokio = { version = "1", features = ["fs", "io-util", "sync", "rt", "rt-multi-thread", "time"] }
notify = "6"
zbus = { version = "4", default-features = false, features = ["tokio"] }
image = { version = "0.25", default-features = false, features = ["png"] }
thumbnailify = "*"
libc = "0.2"
once_cell = "1"
async-trait = "0.1"
