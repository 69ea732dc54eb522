[package]
name = "mm-dlp-core"
version = "0.1.0"
edition = "2021"
publish = false

[dependencies]
anyhow = "1"
async-trait = "0.1"
bytes = "1"
clap = { version = "4", features = ["derive"] }
ed25519-dalek = "2"
hex = "0.4"
http = "1"
lofty = "0.22"
memmap2 = "0.9"
once_cell = "1"
quick-xml = { version = "*", features = ["serialize"] }
regex = "1"
reqwest = { version = "0.12", default-features = false, features = ["json", "rustls-tls", "blocking"] }
rquickjs = "*"
serde = { version = "1", features = ["derive"] }
serde_json = "1"
thiserror = "*"
tokio = { version = "1", features = ["full"] }
tokio-util = "0.7"
url = "2"
urlencoding = "2"
which = "*"
windows-sys = { version = "*", features = ["Win32_Security_Cryptography", "Win32_Foundation", "Win32_System_Memory"] }
