[package]
name = "rime_tui"
version = "0.1.0"
edition = "2021"
publish = false

[dependencies]
anyhow = "=1.0.104"
clap = "=4.6.7"
crossterm = "=0.29.0"
cstr = "=0.2.12"
gag = "=1.0.0"
home = "=0.5.12"
libc = "=0.2.190"
librime-sys = "*"
once_cell = "=1.21.4"
rime-api = "*"
tui = "=0.19.0"
unicode-width = "=0.1.14"
x11 = { version = "=2.21.0", features = ["xlib", "xinput"] }
x11-clipboard = "=0.9.3"
