[package]
name = "eruption"
version = "0.1.0"
edition = "2021"
publish = false

[dependencies]
crc16 = "0.4"
hidapi = "1"
parking_lot = "0.12"
evdev-rs = "0.6"
clap = { version = "3", features = ["derive"] }
clap_generate = "3"
tokio = { version = "1", features = ["rt", "macros"] }
socket2 = { version = "0.4", features = ["all"] }
nix = "0.23"
prost = "0.9"
crossbeam = "0.8"
ctrlc = "3"
syslog = "6"
pretty_env_logger = "0.4"
log = "0.4"
eyre = "0.6"
color-eyre = "0.6"
libc = "0.2"
gtk = "0.15"
gdk = "0.15"
gdk-pixbuf = "0.15"
cairo-rs = "0.15"
pango = "0.15"
pangocairo = "0.15"
palette = "0.6"
