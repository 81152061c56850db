[package]
name = "tty"
version = "0.1.0"
edition = "2021"

[dependencies]
fd = "*"
libc = "*"
termios = "*"
