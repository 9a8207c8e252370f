[package]
name = "borz"
version = "0.1.0"
edition = "2021"
publish = false

[dependencies]
clap = "2"
crossbeam-channel = "*"
crossterm = "0.25"
dirs = "*"
json = "*"
reqwest = { version = "*", default-features = false, features = ["blocking"] }
rpassword = "*"
tui = { version = "0.19", default-features = false, features = ["crossterm"] }
url = "*"
