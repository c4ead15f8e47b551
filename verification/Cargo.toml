[package]
name = "xwayland-satellite"
version = "0.8.0"
edition = "2021"
publish = false

[dependencies]
hecs = "=0.10.5"
tiny-skia = "=0.11.4"
zbus = "=5.19.0"
ab_glyph = "=0.2.32"
log = "=0.4.35"
pretty_env_logger = "=0.5.0"
rustix = { version = "=1.1.6", features = ["event", "fs", "net", "pipe", "process"] }
libc = "=0.2.191"
sd-notify = "=0.4.5"
xcb = { version = "=1.7.1", features = ["composite", "randr", "res", "xfixes"] }
wayland-client = "=0.31.15"
wayland-server = "=0.31.14"
wayland-protocols = { version = "=0.32.13", features = ["client", "server", "staging", "unstable"] }
smithay-client-toolkit = { version = "0.20", default-features = false }
fontconfig = { version = "=0.11.0", features = ["dlopen"] }
