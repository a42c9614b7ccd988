[package]
name = "coldloader"
version = "0.1.0"
edition = "2021"
publish = false

[dependencies]
anyhow = "1"
log = "0.4"
rust-ini = "*"
winapi = { version = "0.3", features = ["libloaderapi", "minwindef", "processthreadsapi", "winnt", "winuser"] }
winreg = "*"
