[package]
name = "linuxpet"
version = "0.1.0"
edition = "2021"
publish = false

[dependencies]
anyhow = "1"
clap = { version = "4", features = ["derive"] }
dirs = "5"
env_logger = "0.11"
fontdue = "0.9"
image = { version = "0.25", default-features = false, features = ["gif"] }
log = "0.4"
notify = { version = "6", default-features = false }
serde = { version = "1", features = ["derive"] }
softbuffer = { version = "0.4", default-features = false, features = ["x11", "x11-dlopen"] }
sysinfo = { version = "=0.29.11", default-features = false }
tiny-skia = "0.11"
toml = "0.8"
winit = { version = "0.30", default-features = false, features = ["rwh_06", "x11"] }
