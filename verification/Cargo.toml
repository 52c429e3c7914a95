[package]
name = "slurm_oddity"
version = "0.1.0"
edition = "2021"
publish = false

[dependencies]
serde = { version = "1", features = ["derive"] }
serde_json = "1"
toml = "*"
shellexpand = "*"
url = "2"
regex = "1"
slurm-spank = "*"
sysinfo = "*"
nix = { version = "*", features = ["user"] }
users = "*"
whoami = "*"
gethostname = "*"
chrono = "*"
libc = "0.2"
tracing = "0.1"
tracing-subscriber = { version = "0.3", features = ["local-time"] }
clap = { version = "4", features = ["derive"] }
reqwest = { version = "*", default-features = false, features = ["blocking", "json"] }
const_format = "*"
cfg-if = "1"
