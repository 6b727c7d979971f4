[package]
name = "supaterm"
version = "0.1.0"
edition = "2021"
publish = false

[dependencies]
terminfo = "*"
rustix = { version = "*", features = ["termios", "stdio"] }
