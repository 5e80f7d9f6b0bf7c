[package]
name = "nix_installer"
version = "0.1.0"
edition = "2021"
publish = false

[dependencies]
async-trait = "*"
bytes = "*"
glob = "*"
indexmap = "*"
nix = { version = "*", features = ["user", "fs"] }
nix-config-parser = "*"
owo-colors = "*"
plist = "*"
rand = "*"
reqwest = { version = "*", default-features = false, features = ["rustls-tls"] }
rpassword = "*"
serde = { version = "*", features = ["derive"] }
simple-home-dir = "*"
tar = "*"
term = "*"
thiserror = "*"
tokio = { version = "*", features = ["full"] }
tracing = "*"
typetag = "*"
uzers = "*"
walkdir = "*"
which = "*"
xz2 = "*"
