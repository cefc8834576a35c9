[package]
name = "command_runner"
version = "0.1.0"
edition = "2021"
publish = false

[dependencies]
toml = "*"
shell-words = "*"
clap = { version = "4", default-features = false, features = ["std", "derive", "help", "usage", "error-context"] }
iced = { version = "0.13", default-features = false, features = ["tokio", "tiny-skia"] }
rfd = { version = "*", default-features = false, features = ["tokio", "xdg-portal"] }
tokio = { version = "1", features = ["rt-multi-thread", "fs", "process"] }
log = "0.4"
